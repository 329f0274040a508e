use evaluator::board::{BoardMove, BoardSquare, PieceKind, WireMove, WireSquare};
use evaluator::error::ProtocolError;
use evaluator::fragment::{attributes_to_eval, RawVariation};
use evaluator::position::Position;
use evaluator::reader::{read_all_evals, ResponseReader};
use evaluator::report::{build_report, Variation};
use evaluator::text::{contains_oversized_field, has_prefix, lower, matches_word, skip_blank_run, starts_with_word, to_chars};
use evaluator::triple::VariationTriple;
use evaluator::wire::{EngineMessage, InfoAttribute};

const START: &str = "rnbqkbnr/pppppppp/8/8/8/8/PPPPPPPP/RNBQKBNR w KQkq - 0 1";

fn wire(text: &str) -> WireMove {
    let c: Vec<char> = text.chars().collect();
    WireMove {
        from: WireSquare { file: c[0], rank: c[1] as u8 - b'0' },
        to: WireSquare { file: c[2], rank: c[3] as u8 - b'0' },
        promotion: None,
    }
}

fn board(from: (u8, u8), to: (u8, u8)) -> BoardMove {
    BoardMove {
        from: BoardSquare { file: from.0, rank: from.1 },
        to: BoardSquare { file: to.0, rank: to.1 },
        promotion: None,
    }
}

fn raw(variation_number: u16, cp: i32, uci_move: BoardMove) -> RawVariation {
    RawVariation { variation_number, cp, uci_move }
}

#[test]
fn fields_fold_into_a_report() {
    let attributes = vec![
        InfoAttribute::Other,
        InfoAttribute::MultiPv(2),
        InfoAttribute::Score(Some(-7)),
        InfoAttribute::Pv(vec![wire("g8f6"), wire("b1c3")]),
    ];
    assert_eq!(attributes_to_eval(&attributes), Ok(Some(raw(2, -7, board((6, 7), (5, 5))))));
}

#[test]
fn a_later_field_replaces_an_earlier_one() {
    let attributes = vec![
        InfoAttribute::MultiPv(1),
        InfoAttribute::Score(Some(1)),
        InfoAttribute::Pv(vec![wire("a2a3")]),
        InfoAttribute::Pv(vec![wire("h2h4")]),
        InfoAttribute::Score(Some(2)),
        InfoAttribute::MultiPv(3),
    ];
    assert_eq!(attributes_to_eval(&attributes), Ok(Some(raw(3, 2, board((7, 1), (7, 3))))));
}

#[test]
fn the_first_missing_field_names_the_violation() {
    assert_eq!(attributes_to_eval(&[]), Err(ProtocolError::MissingRank));
    assert_eq!(attributes_to_eval(&[InfoAttribute::Score(Some(1))]), Err(ProtocolError::MissingRank));
    assert_eq!(attributes_to_eval(&[InfoAttribute::MultiPv(1)]), Err(ProtocolError::MissingScore));
    assert_eq!(
        attributes_to_eval(&[InfoAttribute::MultiPv(1), InfoAttribute::Score(Some(1))]),
        Err(ProtocolError::MissingMove)
    );
    assert_eq!(
        attributes_to_eval(&[InfoAttribute::MultiPv(1), InfoAttribute::Score(None)]),
        Err(ProtocolError::MissingScore)
    );
    assert_eq!(
        attributes_to_eval(&[InfoAttribute::Pv(Vec::new()), InfoAttribute::MultiPv(1)]),
        Err(ProtocolError::MissingMove)
    );
}

#[test]
fn a_diagnostic_ends_the_reading_of_a_line() {
    let benign = InfoAttribute::Text("NNUE evaluation enabled".to_string());
    let other = InfoAttribute::Text("nnue evaluation enabled".to_string());
    assert_eq!(attributes_to_eval(&[benign.clone()]), Ok(None));
    assert_eq!(attributes_to_eval(&[InfoAttribute::MultiPv(1), benign.clone()]), Ok(None));
    assert_eq!(attributes_to_eval(&[other.clone()]), Err(ProtocolError::UnexpectedDiagnostic));
    assert_eq!(
        attributes_to_eval(&[InfoAttribute::Text("NNU".to_string())]),
        Err(ProtocolError::UnexpectedDiagnostic)
    );
    assert_eq!(attributes_to_eval(&[InfoAttribute::Text("NNUE".to_string())]), Ok(None));
    assert_eq!(
        attributes_to_eval(&[InfoAttribute::Score(None), benign]),
        Err(ProtocolError::MissingScore)
    );
}

#[test]
fn a_bad_first_move_names_the_violation() {
    let mut promoted = wire("e7e8");
    promoted.promotion = Some(Some('z'));
    assert_eq!(
        attributes_to_eval(&[InfoAttribute::Pv(vec![promoted])]),
        Err(ProtocolError::InvalidPromotion)
    );
    assert_eq!(
        attributes_to_eval(&[InfoAttribute::Pv(vec![wire("e2e9")])]),
        Err(ProtocolError::InvalidSquare)
    );
    assert_eq!(
        attributes_to_eval(&[
            InfoAttribute::MultiPv(1),
            InfoAttribute::Score(Some(3)),
            InfoAttribute::Pv(vec![wire("e2e4"), wire("z9z9")]),
        ]),
        Ok(Some(raw(1, 3, board((4, 1), (4, 3)))))
    );
}

#[test]
fn the_triple_keeps_one_report_for_each_number() {
    let mut triple = VariationTriple::new();
    assert_eq!(triple.get(1), None);
    assert_eq!(triple.record(raw(2, 5, board((0, 1), (0, 2)))), Ok(()));
    assert_eq!(triple.record(raw(2, 9, board((1, 1), (1, 2)))), Ok(()));
    assert_eq!(triple.record(raw(3, -1, board((2, 1), (2, 2)))), Ok(()));
    assert_eq!(triple.get(1), None);
    assert_eq!(triple.get(2), Some(raw(2, 9, board((1, 1), (1, 2)))));
    assert_eq!(triple.get(3), Some(raw(3, -1, board((2, 1), (2, 2)))));
    assert_eq!(triple.get(0), None);
    assert_eq!(triple.get(4), None);
    let before = triple.clone();
    assert_eq!(triple.record(raw(0, 1, board((0, 0), (0, 1)))), Err(ProtocolError::RankOutOfRange));
    assert_eq!(triple.record(raw(4, 1, board((0, 0), (0, 1)))), Err(ProtocolError::RankOutOfRange));
    assert_eq!(triple, before);
}

#[test]
fn a_report_holds_the_filled_slots_in_order() {
    let position = Position::parse(START).unwrap();
    let mut triple = VariationTriple::new();
    triple.record(raw(3, -4, board((2, 1), (2, 3)))).unwrap();
    triple.record(raw(1, 30, board((4, 1), (4, 3)))).unwrap();
    let report = build_report(&position, &triple);
    assert_eq!(report.position, START);
    assert_eq!(
        report.variations,
        vec![
            Variation { score: 30, mv: "e2e4".to_string() },
            Variation { score: -4, mv: "c2c4".to_string() },
        ]
    );
    assert!(report.variations.len() <= 3);
}

#[test]
fn a_variation_is_built_from_a_report() {
    let position = Position::parse(START).unwrap();
    let built = Variation::from_raw_variation(&raw(1, -250, board((6, 0), (5, 2))), &position);
    assert_eq!(built, Variation { score: -250, mv: "g1f3".to_string() });
}

#[test]
fn moves_are_written_in_coordinate_notation() {
    assert_eq!(board((0, 0), (7, 7)).notation(), "a1h8");
    assert_eq!(board((4, 1), (4, 3)).notation(), "e2e4");
    let kinds = [
        (PieceKind::Pawn, "b7b8p"),
        (PieceKind::Knight, "b7b8n"),
        (PieceKind::Bishop, "b7b8b"),
        (PieceKind::Rook, "b7b8r"),
        (PieceKind::Queen, "b7b8q"),
        (PieceKind::King, "b7b8k"),
    ];
    for (kind, text) in kinds {
        let mut mv = board((1, 6), (1, 7));
        mv.promotion = Some(kind);
        assert_eq!(mv.notation(), text);
    }
}

#[test]
fn positions_are_checked() {
    assert_eq!(Position::parse(START).map(|p| p.notation().to_string()), Some(START.to_string()));
    assert!(Position::parse("8/8/8/8/8/8/8/8 w - - 0 1").is_some());
    assert!(Position::parse("").is_none());
    assert!(Position::parse("startpos").is_none());
    assert!(Position::parse("rnbqkbnr/pppppppp/8/8/8/8/PPPPPPPP/RNBQKBN w KQkq - 0 1").is_none());
    assert!(Position::parse("rnbqkbnr/pppppppp/8/8/8/8/PPPPPPPP/RNBQKBNR x KQkq - 0 1").is_none());
}

#[test]
fn the_reader_collects_until_the_terminal_marker() {
    let mut reader = ResponseReader::new();
    assert!(!reader.complete());
    assert_eq!(reader.feed(""), Ok(false));
    assert_eq!(reader.feed("readyok"), Ok(false));
    assert_eq!(reader.feed("info multipv 2 score cp 4 pv d2d4"), Ok(false));
    assert_eq!(reader.feed("info string NNUE evaluation"), Ok(false));
    assert_eq!(reader.feed("info multipv 9 score cp 4 pv d2d4"), Err(ProtocolError::RankOutOfRange));
    assert_eq!(reader.feed("info multipv 1 pv d2d4"), Err(ProtocolError::MissingScore));
    assert!(!reader.complete());
    assert_eq!(reader.feed("bestmove d2d4"), Ok(true));
    assert!(reader.complete());
    assert_eq!(reader.feed("info multipv 1 score cp 4 pv e2e4"), Ok(true));
    assert_eq!(reader.accept(&EngineMessage::Info(Vec::new())), Ok(true));
    let triple = reader.into_triple();
    assert_eq!(triple.get(1), None);
    assert_eq!(triple.get(2), Some(raw(2, 4, board((3, 1), (3, 3)))));
    assert_eq!(triple.get(3), None);
}

#[test]
fn the_reader_takes_messages() {
    let mut reader = ResponseReader::new();
    assert_eq!(reader.accept(&EngineMessage::Other), Ok(false));
    assert_eq!(
        reader.accept(&EngineMessage::Info(vec![
            InfoAttribute::MultiPv(1),
            InfoAttribute::Score(Some(8)),
            InfoAttribute::Pv(vec![wire("e2e4")]),
        ])),
        Ok(false)
    );
    assert_eq!(reader.accept(&EngineMessage::Info(Vec::new())), Err(ProtocolError::MissingRank));
    assert_eq!(reader.accept(&EngineMessage::BestMove), Ok(true));
    assert_eq!(reader.into_triple().get(1), Some(raw(1, 8, board((4, 1), (4, 3)))));
}

#[test]
fn a_recorded_output_is_read_search_by_search() {
    let lines: Vec<String> = [
        "info multipv 1 score cp 20 pv e2e4",
        "bestmove e2e4",
        "bestmove d2d4",
        "info multipv 1 score cp 1 pv a2a3",
    ]
    .iter()
    .map(|s| s.to_string())
    .collect();
    let (first, next) = read_all_evals(&lines, 0).unwrap();
    assert_eq!(next, 2);
    assert_eq!(first.get(1), Some(raw(1, 20, board((4, 1), (4, 3)))));
    let (second, next) = read_all_evals(&lines, next).unwrap();
    assert_eq!(next, 3);
    assert_eq!(second, VariationTriple::new());
    assert_eq!(read_all_evals(&lines, next), Err(ProtocolError::UnexpectedEof));
    assert_eq!(read_all_evals(&lines, 4), Err(ProtocolError::UnexpectedEof));
    assert_eq!(read_all_evals(&lines, 99), Err(ProtocolError::UnexpectedEof));
}

#[test]
fn words_are_found_whatever_their_case() {
    let text = to_chars(" \t Info DePtH  256");
    assert_eq!(text.len(), 18);
    assert_eq!(skip_blank_run(&text, 0), 3);
    assert_eq!(skip_blank_run(&text, 3), 3);
    assert!(starts_with_word(&text, "info"));
    assert!(!starts_with_word(&text, "bestmove"));
    assert!(matches_word(&text, 8, "depth"));
    assert!(!matches_word(&text, 9, "depth"));
    assert!(!matches_word(&text, 15, "depth"));
    assert!(!matches_word(&text, 40, "depth"));
    assert!(contains_oversized_field(&text, "depth"));
    assert!(!contains_oversized_field(&to_chars("info depth 255"), "depth"));
    assert!(!contains_oversized_field(&to_chars("info depth256"), "depth"));
    assert!(!contains_oversized_field(&to_chars("info depth 25"), "depth"));
    assert!(contains_oversized_field(&to_chars("depth 999"), "depth"));
    assert_eq!(lower('Q'), 'q');
    assert_eq!(lower('q'), 'q');
    assert_eq!(lower('['), '[');
    assert!(has_prefix("NNUE on", "NNUE"));
    assert!(!has_prefix("NN", "NNUE"));
    assert!(has_prefix("anything", ""));
}
