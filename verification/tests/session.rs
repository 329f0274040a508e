use evaluator::error::{DriverError, ProtocolError};
use evaluator::report::{PositionReport, Variation};
use evaluator::session::{run_session, ResultAggregator, Session};
use evaluator::triple::VariationTriple;

const START: &str = "rnbqkbnr/pppppppp/8/8/8/8/PPPPPPPP/RNBQKBNR w KQkq - 0 1";
const AFTER_E4: &str = "rnbqkbnr/pppppppp/8/8/4P3/8/PPPP1PPP/RNBQKBNR b KQkq e3 0 1";

fn strings(items: &[&str]) -> Vec<String> {
    items.iter().map(|s| s.to_string()).collect()
}

fn variation(score: i32, mv: &str) -> Variation {
    Variation { score, mv: mv.to_string() }
}

fn setup_lines() -> Vec<String> {
    strings(&[
        "uci\n",
        "setoption name Threads value 8\n",
        "setoption name Hash value 1024\n",
        "setoption name MultiPV value 3\n",
    ])
}

#[test]
fn start_position_with_two_lines_reported() {
    let positions = strings(&[START]);
    let lines = strings(&[
        "info depth 10 multipv 1 score cp 20 pv e2e4",
        "info depth 10 multipv 2 score cp 15 pv d2d4",
        "bestmove e2e4",
    ]);
    let session = run_session(&positions, &lines).unwrap();
    assert_eq!(
        session.reports,
        vec![PositionReport {
            position: START.to_string(),
            variations: vec![variation(20, "e2e4"), variation(15, "d2d4")],
        }]
    );
}

#[test]
fn commands_for_one_position() {
    let positions = strings(&[START]);
    let lines = strings(&["bestmove e2e4"]);
    let session = run_session(&positions, &lines).unwrap();
    let mut expected = setup_lines();
    expected.push(format!("position fen {}\n", START));
    expected.push("go depth 10 \n".to_string());
    expected.push("quit\n".to_string());
    assert_eq!(session.commands, expected);
}

#[test]
fn a_progress_line_without_score_aborts_the_run() {
    let positions = strings(&[START]);
    let lines = strings(&["info depth 10 multipv 1 pv e2e4", "bestmove e2e4"]);
    assert_eq!(
        run_session(&positions, &lines),
        Err(DriverError::Protocol { index: 0, error: ProtocolError::MissingScore })
    );
}

#[test]
fn an_empty_batch_still_sets_up_and_shuts_down() {
    let session = run_session(&Vec::new(), &Vec::new()).unwrap();
    let mut expected = setup_lines();
    expected.push("quit\n".to_string());
    assert_eq!(session, Session { commands: expected, reports: Vec::new() });
}

#[test]
fn reports_keep_the_order_of_the_positions() {
    let positions = strings(&[AFTER_E4, START, AFTER_E4]);
    let lines = strings(&[
        "info multipv 1 score cp -30 pv e7e5",
        "bestmove e7e5",
        "info multipv 1 score cp 25 pv g1f3",
        "bestmove g1f3",
        "",
        "info multipv 1 score cp -28 pv c7c5",
        "bestmove c7c5 ponder g1f3",
        "info multipv 1 score cp 0 pv a2a3",
    ]);
    let session = run_session(&positions, &lines).unwrap();
    assert_eq!(session.reports.len(), 3);
    assert_eq!(session.reports[0].position, AFTER_E4);
    assert_eq!(session.reports[1].position, START);
    assert_eq!(session.reports[2].position, AFTER_E4);
    assert_eq!(session.reports[0].variations, vec![variation(-30, "e7e5")]);
    assert_eq!(session.reports[1].variations, vec![variation(25, "g1f3")]);
    assert_eq!(session.reports[2].variations, vec![variation(-28, "c7c5")]);
    assert_eq!(session.commands.len(), 4 + 2 * 3 + 1);
}

#[test]
fn variations_come_in_rank_order_whatever_the_order_of_arrival() {
    let positions = strings(&[START]);
    let lines = strings(&[
        "info multipv 3 score cp 5 pv c2c4",
        "info multipv 1 score cp 20 pv e2e4",
        "info multipv 2 score cp 15 pv d2d4",
        "bestmove e2e4",
    ]);
    let session = run_session(&positions, &lines).unwrap();
    assert_eq!(
        session.reports[0].variations,
        vec![variation(20, "e2e4"), variation(15, "d2d4"), variation(5, "c2c4")]
    );
}

#[test]
fn a_later_report_supersedes_an_earlier_one() {
    let positions = strings(&[START]);
    let lines = strings(&[
        "info depth 1 multipv 1 score cp 90 pv g1f3",
        "info depth 1 multipv 2 score cp 10 pv d2d4",
        "info depth 2 multipv 1 score cp 21 pv e2e4 e7e5",
        "bestmove e2e4",
    ]);
    let session = run_session(&positions, &lines).unwrap();
    assert_eq!(session.reports[0].variations, vec![variation(21, "e2e4"), variation(10, "d2d4")]);
}

#[test]
fn a_missing_rank_leaves_no_placeholder() {
    let positions = strings(&[START]);
    let lines = strings(&[
        "info multipv 1 score cp 20 pv e2e4",
        "info multipv 3 score cp 5 pv c2c4",
        "bestmove e2e4",
    ]);
    let session = run_session(&positions, &lines).unwrap();
    assert_eq!(session.reports[0].variations, vec![variation(20, "e2e4"), variation(5, "c2c4")]);
}

#[test]
fn a_search_without_reports_gives_an_empty_report() {
    let positions = strings(&[START]);
    let lines = strings(&["readyok", "bestmove e2e4"]);
    let session = run_session(&positions, &lines).unwrap();
    assert_eq!(
        session.reports,
        vec![PositionReport { position: START.to_string(), variations: Vec::new() }]
    );
}

#[test]
fn a_benign_diagnostic_is_passed_over() {
    let positions = strings(&[START]);
    let lines = strings(&[
        "info string NNUE evaluation using nn-13406b1dcbe0.nnue enabled",
        "info multipv 1 score cp 20 pv e2e4",
        "bestmove e2e4",
    ]);
    let session = run_session(&positions, &lines).unwrap();
    assert_eq!(session.reports[0].variations, vec![variation(20, "e2e4")]);
}

#[test]
fn an_unknown_diagnostic_aborts_the_run() {
    let positions = strings(&[START]);
    let lines = strings(&["info string something else", "bestmove e2e4"]);
    assert_eq!(
        run_session(&positions, &lines),
        Err(DriverError::Protocol { index: 0, error: ProtocolError::UnexpectedDiagnostic })
    );
}

#[test]
fn output_that_ends_before_the_terminal_marker_aborts_the_run() {
    let positions = strings(&[START, AFTER_E4]);
    let lines = strings(&[
        "info multipv 1 score cp 20 pv e2e4",
        "bestmove e2e4",
        "info multipv 1 score cp -30 pv e7e5",
    ]);
    assert_eq!(
        run_session(&positions, &lines),
        Err(DriverError::Protocol { index: 1, error: ProtocolError::UnexpectedEof })
    );
}

#[test]
fn a_rank_out_of_range_aborts_the_run() {
    let positions = strings(&[START]);
    let high = strings(&["info multipv 4 score cp 20 pv e2e4", "bestmove e2e4"]);
    let zero = strings(&["info multipv 0 score cp 20 pv e2e4", "bestmove e2e4"]);
    let expected = Err(DriverError::Protocol { index: 0, error: ProtocolError::RankOutOfRange });
    assert_eq!(run_session(&positions, &high), expected);
    assert_eq!(run_session(&positions, &zero), expected);
}

#[test]
fn a_line_without_number_or_move_aborts_the_run() {
    let positions = strings(&[START]);
    let no_rank = strings(&["info depth 3 score cp 20 pv e2e4", "bestmove e2e4"]);
    let no_move = strings(&["info multipv 1 score cp 20", "bestmove e2e4"]);
    let mate = strings(&["info multipv 1 score mate 3 pv e2e4", "bestmove e2e4"]);
    assert_eq!(
        run_session(&positions, &no_rank),
        Err(DriverError::Protocol { index: 0, error: ProtocolError::MissingRank })
    );
    assert_eq!(
        run_session(&positions, &no_move),
        Err(DriverError::Protocol { index: 0, error: ProtocolError::MissingMove })
    );
    assert_eq!(
        run_session(&positions, &mate),
        Err(DriverError::Protocol { index: 0, error: ProtocolError::MissingScore })
    );
}

#[test]
fn a_move_off_the_board_aborts_the_run() {
    let positions = strings(&[START]);
    let lines = strings(&["info multipv 1 score cp 20 pv E2E4", "bestmove e2e4"]);
    assert_eq!(
        run_session(&positions, &lines),
        Err(DriverError::Protocol { index: 0, error: ProtocolError::InvalidSquare })
    );
}

#[test]
fn an_oversized_depth_aborts_the_run() {
    let positions = strings(&[START]);
    let lines = strings(&["info depth 300 multipv 1 score cp 20 pv e2e4", "bestmove e2e4"]);
    assert_eq!(
        run_session(&positions, &lines),
        Err(DriverError::Protocol { index: 0, error: ProtocolError::FieldOutOfRange })
    );
}

#[test]
fn an_invalid_position_aborts_the_run_when_its_results_are_in() {
    let positions = strings(&[START, "not a position", AFTER_E4]);
    let lines = strings(&["bestmove e2e4", "bestmove e2e4", "bestmove e7e5"]);
    assert_eq!(run_session(&positions, &lines), Err(DriverError::InvalidPosition { index: 1 }));
    let short = strings(&["bestmove e2e4"]);
    assert_eq!(
        run_session(&positions, &short),
        Err(DriverError::Protocol { index: 1, error: ProtocolError::UnexpectedEof })
    );
}

#[test]
fn a_promotion_is_written_with_its_letter() {
    let positions = strings(&["8/4P3/8/8/8/8/8/k6K w - - 0 1"]);
    let lines = strings(&[
        "info multipv 1 score cp 900 pv e7e8q",
        "info multipv 2 score cp 300 pv e7e8n",
        "bestmove e7e8q",
    ]);
    let session = run_session(&positions, &lines).unwrap();
    assert_eq!(session.reports[0].variations, vec![variation(900, "e7e8q"), variation(300, "e7e8n")]);
}

#[test]
fn the_aggregator_appends_in_order_and_rejects_bad_notation() {
    let mut aggregator = ResultAggregator::new();
    let triple = VariationTriple::new();
    assert_eq!(aggregator.complete_position(START, &triple), Ok(()));
    assert_eq!(
        aggregator.complete_position("8/8 w", &triple),
        Err(DriverError::InvalidPosition { index: 1 })
    );
    assert_eq!(aggregator.complete_position(AFTER_E4, &triple), Ok(()));
    assert_eq!(aggregator.len(), 2);
    let reports = aggregator.into_reports();
    assert_eq!(reports[0].position, START);
    assert_eq!(reports[1].position, AFTER_E4);
    assert!(reports[0].variations.is_empty());
}
