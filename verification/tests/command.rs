use stockfish::command::{go_depth, go_times, position, position_moves, set_option};

#[test]
fn position_carries_the_fen() {
    assert_eq!(
        position("rnbqkbnr/pppppppp/8/8/8/8/PPPPPPPP/RNBQKBNR w KQkq - 0 1"),
        "position fen rnbqkbnr/pppppppp/8/8/8/8/PPPPPPPP/RNBQKBNR w KQkq - 0 1"
    );
    assert_eq!(position(""), "position fen ");
}

#[test]
fn position_moves_carries_fen_and_moves() {
    assert_eq!(
        position_moves("8/8/8/8/8/8/8/K1k5 w - - 0 1", "a1a2 c1c2"),
        "position fen 8/8/8/8/8/8/8/K1k5 w - - 0 1 moves a1a2 c1c2"
    );
    assert_eq!(position_moves("F", ""), "position fen F moves ");
}

#[test]
fn go_depth_carries_the_depth() {
    assert_eq!(go_depth(15), "go depth 15");
    assert_eq!(go_depth(1), "go depth 1");
    assert_eq!(go_depth(0), "go depth 0");
    assert_eq!(go_depth(u32::MAX), "go depth 4294967295");
}

#[test]
fn go_times_names_the_clocks_that_are_set() {
    assert_eq!(go_times(Some(50_000), Some(55_000)), "go wtime 50000 btime 55000");
    assert_eq!(go_times(Some(50_000), None), "go wtime 50000");
    assert_eq!(go_times(None, Some(10)), "go btime 10");
    assert_eq!(go_times(None, None), "go");
    assert_eq!(go_times(Some(0), Some(0)), "go wtime 0 btime 0");
}

#[test]
fn set_option_names_option_and_value() {
    assert_eq!(set_option("Move Overhead", "20"), "setoption name Move Overhead value 20");
    assert_eq!(set_option("Ponder", "false"), "setoption name Ponder value false");
    assert_eq!(set_option("", ""), "setoption name  value ");
}
