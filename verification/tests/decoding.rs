use evaluator::board::{vampirc_to_shakmaty, BoardMove, BoardSquare, PieceKind, WireMove, WireSquare};
use evaluator::error::ProtocolError;
use evaluator::wire::{classify_line, EngineMessage, InfoAttribute};

fn wire(from: (char, u8), to: (char, u8), promotion: Option<Option<char>>) -> WireMove {
    WireMove {
        from: WireSquare { file: from.0, rank: from.1 },
        to: WireSquare { file: to.0, rank: to.1 },
        promotion,
    }
}

#[test]
fn decodes_a_plain_move() {
    let decoded = vampirc_to_shakmaty(&wire(('e', 2), ('e', 4), None));
    assert_eq!(
        decoded,
        Ok(BoardMove {
            from: BoardSquare { file: 4, rank: 1 },
            to: BoardSquare { file: 4, rank: 3 },
            promotion: None,
        })
    );
}

#[test]
fn decodes_a_promotion() {
    let decoded = vampirc_to_shakmaty(&wire(('a', 7), ('a', 8), Some(Some('q'))));
    assert_eq!(
        decoded,
        Ok(BoardMove {
            from: BoardSquare { file: 0, rank: 6 },
            to: BoardSquare { file: 0, rank: 7 },
            promotion: Some(PieceKind::Queen),
        })
    );
}

#[test]
fn a_promotion_without_letter_counts_as_pawn() {
    let decoded = vampirc_to_shakmaty(&wire(('h', 7), ('h', 8), Some(None)));
    assert_eq!(decoded.map(|m| m.promotion), Ok(Some(PieceKind::Pawn)));
}

#[test]
fn rejects_squares_off_the_board() {
    assert_eq!(vampirc_to_shakmaty(&wire(('i', 2), ('e', 4), None)), Err(ProtocolError::InvalidSquare));
    assert_eq!(vampirc_to_shakmaty(&wire(('E', 2), ('e', 4), None)), Err(ProtocolError::InvalidSquare));
    assert_eq!(vampirc_to_shakmaty(&wire(('e', 0), ('e', 4), None)), Err(ProtocolError::InvalidSquare));
    assert_eq!(vampirc_to_shakmaty(&wire(('e', 2), ('e', 9), None)), Err(ProtocolError::InvalidSquare));
}

#[test]
fn rejects_an_unknown_promotion_letter() {
    assert_eq!(
        vampirc_to_shakmaty(&wire(('e', 7), ('e', 8), Some(Some('x')))),
        Err(ProtocolError::InvalidPromotion)
    );
}

#[test]
fn reads_a_progress_line() {
    let message = classify_line("info depth 10 seldepth 12 multipv 2 score cp -15 nodes 1234 pv d2d4 d7d5");
    assert_eq!(
        message,
        Ok(EngineMessage::Info(vec![
            InfoAttribute::Other,
            InfoAttribute::Other,
            InfoAttribute::MultiPv(2),
            InfoAttribute::Score(Some(-15)),
            InfoAttribute::Other,
            InfoAttribute::Pv(vec![
                wire(('d', 2), ('d', 4), None),
                wire(('d', 7), ('d', 5), None),
            ]),
        ]))
    );
}

#[test]
fn reads_a_terminal_marker() {
    assert_eq!(classify_line("bestmove e2e4 ponder e7e5"), Ok(EngineMessage::BestMove));
    assert_eq!(classify_line("  BestMove e2e4"), Ok(EngineMessage::BestMove));
}

#[test]
fn reads_a_diagnostic_line() {
    assert_eq!(
        classify_line("info string NNUE evaluation using nn-13406b1dcbe0.nnue enabled"),
        Ok(EngineMessage::Info(vec![InfoAttribute::Text(
            "NNUE evaluation using nn-13406b1dcbe0.nnue enabled".to_string()
        )]))
    );
}

#[test]
fn other_lines_are_not_parsed() {
    assert_eq!(classify_line(""), Ok(EngineMessage::Other));
    assert_eq!(classify_line("uciok"), Ok(EngineMessage::Other));
    assert_eq!(classify_line("go movestogo 999"), Ok(EngineMessage::Other));
    assert_eq!(classify_line("id name Stockfish 14.1"), Ok(EngineMessage::Other));
}

#[test]
fn a_malformed_terminal_marker_is_no_marker() {
    assert_eq!(classify_line("bestmove (none)"), Ok(EngineMessage::Other));
    assert_eq!(classify_line("information"), Ok(EngineMessage::Other));
}

#[test]
fn an_oversized_depth_is_a_violation() {
    assert_eq!(classify_line("info depth 256 multipv 1"), Err(ProtocolError::FieldOutOfRange));
    assert_eq!(classify_line("info seldepth \t 999"), Err(ProtocolError::FieldOutOfRange));
    assert_eq!(classify_line("info DEPTH 300"), Err(ProtocolError::FieldOutOfRange));
    assert_eq!(
        classify_line("info depth 255 nodes 999999"),
        Ok(EngineMessage::Info(vec![InfoAttribute::Other, InfoAttribute::Other]))
    );
}
