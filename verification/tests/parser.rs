use stockfish::parser::{
    dump_end, fen_payload, is_white_to_move, normalize, parse_depth, parse_depth_on,
    parse_engine_output, parse_score, parse_version, ready_line, terminal_line,
};
use stockfish::{EngineError, EngineEval, EngineOutput, EvalType, Malformed};

const START: &str = "rnbqkbnr/pppppppp/8/8/8/8/PPPPPPPP/RNBQKBNR w KQkq - 0 1";
const AFTER_E4: &str = "rnbqkbnr/pppppppp/8/8/4P3/8/PPPP1PPP/RNBQKBNR b KQkq - 0 1";

fn malformed<T>(kind: Malformed) -> Result<T, EngineError> {
    Err(EngineError::Protocol(kind))
}

fn some(line: &str) -> Option<String> {
    Some(line.to_string())
}

#[test]
fn parse_version_takes_the_second_token() {
    assert_eq!(
        parse_version("Stockfish 16 by the Stockfish developers (see AUTHORS file)"),
        some("16")
    );
    assert_eq!(parse_version("Stockfish 15.1"), some("15.1"));
}

#[test]
fn parse_version_may_find_none() {
    assert_eq!(parse_version("Stockfish"), None);
    assert_eq!(parse_version(""), None);
    assert_eq!(parse_version("Stockfish "), None);
    assert_eq!(parse_version("Stockfish  16"), None);
}

#[test]
fn ready_line_is_an_exact_match() {
    assert!(ready_line("readyok"));
    assert!(!ready_line("readyok "));
    assert!(!ready_line(" readyok"));
    assert!(!ready_line("info string readyok"));
    assert!(!ready_line(""));
}

#[test]
fn fen_payload_is_the_text_after_the_tag() {
    assert_eq!(fen_payload(&format!("Fen: {START}")), some(START));
    assert_eq!(fen_payload("Fen: a  b "), some("a  b "));
    assert_eq!(fen_payload("Fen:"), some(""));
    assert_eq!(fen_payload("Fen: "), some(""));
}

#[test]
fn fen_payload_wants_the_tag_as_first_field() {
    assert_eq!(fen_payload(" Fen: x"), None);
    assert_eq!(fen_payload("Fen:x"), None);
    assert_eq!(fen_payload("fen: x"), None);
    assert_eq!(fen_payload("Key: 8F8F01D4562F59FB"), None);
    assert_eq!(fen_payload(""), None);
}

#[test]
fn dump_end_looks_for_the_word_anywhere() {
    assert!(dump_end("Checkers: "));
    assert!(dump_end("Checkers: e4 d5"));
    assert!(dump_end("  Checkers"));
    assert!(!dump_end("Key: 8F8F01D4562F59FB"));
    assert!(!dump_end("checkers:"));
    assert!(!dump_end(""));
}

#[test]
fn terminal_line_opens_with_bestmove() {
    assert!(terminal_line("bestmove e2e4 ponder e7e5"));
    assert!(terminal_line("bestmove"));
    assert!(!terminal_line("info depth 1 bestmove"));
    assert!(!terminal_line(" bestmove e2e4"));
    assert!(!terminal_line("bestmoves e2e4"));
}

#[test]
fn white_is_to_move_where_the_letter_stands() {
    assert!(is_white_to_move(START));
    assert!(!is_white_to_move(AFTER_E4));
    assert!(!is_white_to_move(""));
}

#[test]
fn score_keeps_its_sign_for_white_and_turns_it_for_black() {
    assert_eq!(normalize(37, true), Some(37));
    assert_eq!(normalize(37, false), Some(-37));
    assert_eq!(normalize(-37, true), Some(-37));
    assert_eq!(normalize(-37, false), Some(37));
    assert_eq!(normalize(0, false), Some(0));
    assert_eq!(normalize(i32::MAX, false), Some(-i32::MAX));
    assert_eq!(normalize(i32::MIN, true), Some(i32::MIN));
    assert_eq!(normalize(i32::MIN, false), None);
}

#[test]
fn parse_score_normalizes_for_the_side_to_move() {
    let line = "info depth 12 seldepth 18 multipv 1 score cp 37 nodes 1 pv e2e4";
    assert_eq!(parse_score(line, true), Ok((EvalType::Centipawn, 37)));
    assert_eq!(parse_score(line, false), Ok((EvalType::Centipawn, -37)));
    let mate = "info depth 3 score mate -2 pv h7h8";
    assert_eq!(parse_score(mate, true), Ok((EvalType::Mate, -2)));
    assert_eq!(parse_score(mate, false), Ok((EvalType::Mate, 2)));
}

#[test]
fn parse_score_goes_by_the_first_score_field() {
    assert_eq!(
        parse_score("info score cp 1 score mate 2", true),
        Ok((EvalType::Centipawn, 1))
    );
    assert_eq!(
        parse_score("info score xx 1 score mate 2", true),
        malformed(Malformed::UnknownEvalType)
    );
}

#[test]
fn parse_score_reports_what_is_missing() {
    assert_eq!(parse_score("info depth 12", true), malformed(Malformed::MissingScore));
    assert_eq!(parse_score("", true), malformed(Malformed::MissingScore));
    assert_eq!(parse_score("info score", true), malformed(Malformed::MissingScore));
    assert_eq!(parse_score("info score cp", true), malformed(Malformed::MissingScore));
    assert_eq!(parse_score("info score  25", true), malformed(Malformed::UnknownEvalType));
    assert_eq!(parse_score("info score lowerbound 25", true), malformed(Malformed::UnknownEvalType));
    assert_eq!(parse_score("info score cp x", true), malformed(Malformed::InvalidScore));
    assert_eq!(parse_score("info score cp ", true), malformed(Malformed::InvalidScore));
    assert_eq!(parse_score("info score cp 2147483648", true), malformed(Malformed::InvalidScore));
    assert_eq!(parse_score("info score cp -2147483648", true), Ok((EvalType::Centipawn, i32::MIN)));
    assert_eq!(parse_score("info score cp -2147483648", false), malformed(Malformed::InvalidScore));
}

#[test]
fn parse_depth_on_reads_the_field_after_depth() {
    assert_eq!(parse_depth_on("info depth 12 seldepth 18 score cp 3"), Some(12));
    assert_eq!(parse_depth_on("info seldepth 18 depth 7"), Some(7));
    assert_eq!(parse_depth_on("info score cp 3"), None);
    assert_eq!(parse_depth_on("info depth"), None);
    assert_eq!(parse_depth_on("info depth x"), None);
    assert_eq!(parse_depth_on("info depth -1"), None);
    assert_eq!(parse_depth_on(""), None);
}

#[test]
fn parse_depth_falls_back_to_the_terminal_line_and_to_zero() {
    assert_eq!(parse_depth("info depth 12 score cp 3", "bestmove e2e4 depth 5"), 12);
    assert_eq!(parse_depth("info score cp 3", "bestmove e2e4 depth 5"), 5);
    assert_eq!(parse_depth("info score cp 3", "bestmove e2e4"), 0);
}

#[test]
fn parse_engine_output_reads_a_whole_result() {
    let out = parse_engine_output(
        START,
        &some("info depth 12 seldepth 18 multipv 1 score cp 25 nodes 3 pv e2e4 e7e5"),
        "bestmove e2e4 ponder e7e5",
    );
    assert_eq!(
        out,
        Ok(EngineOutput::new(
            EngineEval::new(EvalType::Centipawn, 25, 12),
            "e2e4".to_string(),
            some("e7e5"),
            12
        ))
    );
}

#[test]
fn parse_engine_output_turns_the_score_for_black() {
    let out = parse_engine_output(
        AFTER_E4,
        &some("info depth 9 score cp 37 pv e7e5"),
        "bestmove e7e5",
    )
    .unwrap();
    assert_eq!(out.eval().value(), -37);
    assert_eq!(out.eval().eval_type(), EvalType::Centipawn);
    assert_eq!(out.eval().depth(), 9);
    assert_eq!(out.best_move(), "e7e5");
    assert_eq!(out.pondered_move(), &None);
    assert_eq!(out.depth(), 9);
}

#[test]
fn parse_engine_output_takes_the_pondered_move_only_after_its_marker() {
    let info = some("info score mate 1");
    let ponder = |terminal: &str| {
        parse_engine_output(START, &info, terminal).unwrap().pondered_move().clone()
    };
    assert_eq!(ponder("bestmove e2e4 ponder e7e5"), some("e7e5"));
    assert_eq!(ponder("bestmove e2e4 ponder"), None);
    assert_eq!(ponder("bestmove e2e4 ponder "), None);
    assert_eq!(ponder("bestmove e2e4 e7e5"), None);
    assert_eq!(ponder("bestmove e2e4 pondering e7e5"), None);
    assert_eq!(ponder("bestmove e2e4"), None);
}

#[test]
fn parse_engine_output_wants_a_best_move() {
    let info = some("info depth 1 score cp 3");
    assert_eq!(
        parse_engine_output(START, &info, "bestmove"),
        malformed(Malformed::MissingBestMove)
    );
    assert_eq!(
        parse_engine_output(START, &info, "bestmove "),
        malformed(Malformed::MissingBestMove)
    );
    assert_eq!(
        parse_engine_output(START, &info, "bestmove  ponder e7e5"),
        malformed(Malformed::MissingBestMove)
    );
}

#[test]
fn parse_engine_output_wants_a_score_on_the_line_before() {
    assert_eq!(
        parse_engine_output(START, &None, "bestmove e2e4"),
        malformed(Malformed::MissingScore)
    );
    assert_eq!(
        parse_engine_output(START, &some("info depth 12 currmove e2e4"), "bestmove e2e4"),
        malformed(Malformed::MissingScore)
    );
    assert_eq!(
        parse_engine_output(START, &some("info score up 3"), "bestmove e2e4"),
        malformed(Malformed::UnknownEvalType)
    );
    assert_eq!(
        parse_engine_output(START, &some("info score cp three"), "bestmove e2e4"),
        malformed(Malformed::InvalidScore)
    );
}

#[test]
fn parse_engine_output_reports_the_score_before_the_move() {
    assert_eq!(
        parse_engine_output(START, &some("info depth 12"), "bestmove"),
        malformed(Malformed::MissingScore)
    );
}
