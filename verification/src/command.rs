//! The commands that the session writes to the engine, as text without the
//! closing newline.
use crate::decimal::{decimal, u32_text};
use vstd::prelude::*;
use vstd::string::*;

verus! {

/// The readiness probe.
pub open spec fn is_ready_text() -> Seq<char> {
    "isready"@
}

/// The announcement of a new game.
pub open spec fn new_game_text() -> Seq<char> {
    "ucinewgame"@
}

/// The request for a dump of the current position.
pub open spec fn dump_text() -> Seq<char> {
    "d"@
}

/// The command that sets the starting position.
pub open spec fn start_position_text() -> Seq<char> {
    "position startpos"@
}

/// The command that starts a calculation without a bound of its own.
pub open spec fn go_text() -> Seq<char> {
    "go"@
}

/// The command that ends a calculation.
pub open spec fn stop_text() -> Seq<char> {
    "stop"@
}

/// The command that ends the engine.
pub open spec fn quit_text() -> Seq<char> {
    "quit"@
}

/// The command that sets the position `fen`.
pub open spec fn position_text(fen: Seq<char>) -> Seq<char> {
    "position fen "@ + fen
}

/// The command that sets the position `fen` and plays `moves` on it, where
/// `moves` holds the moves with single spaces between them.
pub open spec fn position_moves_text(fen: Seq<char>, moves: Seq<char>) -> Seq<char> {
    "position fen "@ + fen + " moves "@ + moves
}

/// The command that starts a calculation to the given depth.
pub open spec fn go_depth_text(depth: u32) -> Seq<char> {
    "go depth "@ + decimal(depth as nat)
}

/// The part of a clock-based `go` command that gives one side's clock;
/// nothing where the clock is unset.
pub open spec fn clock_text(label: Seq<char>, time: Option<u32>) -> Seq<char> {
    match time {
        Some(ms) => label + decimal(ms as nat),
        None => Seq::empty(),
    }
}

/// The command that starts a calculation bounded by the clocks of the two
/// sides, in milliseconds. A side whose clock is unset is not mentioned.
pub open spec fn go_times_text(white_time: Option<u32>, black_time: Option<u32>) -> Seq<char> {
    "go"@ + clock_text(" wtime "@, white_time) + clock_text(" btime "@, black_time)
}

/// The command that sets the engine's option `name` to `value`.
pub open spec fn set_option_text(name: Seq<char>, value: Seq<char>) -> Seq<char> {
    "setoption name "@ + name + " value "@ + value
}

/// Writes the command that sets the position `fen`.
pub fn position(fen: &str) -> (command: String)
    ensures
        command@ == position_text(fen@),
{
    let mut command = String::from_str("position fen ");
    command.append(fen);
    command
}

/// Writes the command that sets the position `fen` and plays `moves` on it.
pub fn position_moves(fen: &str, moves: &str) -> (command: String)
    ensures
        command@ == position_moves_text(fen@, moves@),
{
    let mut command = String::from_str("position fen ");
    command.append(fen);
    command.append(" moves ");
    command.append(moves);
    command
}

/// Writes the command that starts a calculation to the given depth.
pub fn go_depth(depth: u32) -> (command: String)
    ensures
        command@ == go_depth_text(depth),
{
    let mut command = String::from_str("go depth ");
    command.append(u32_text(depth).as_str());
    command
}

/// Appends one side's clock to a `go` command, if it is set.
fn push_clock(command: &mut String, label: &str, time: Option<u32>)
    ensures
        final(command)@ == old(command)@ + clock_text(label@, time),
{
    match time {
        Some(ms) => {
            command.append(label);
            command.append(u32_text(ms).as_str());
            assert(old(command)@ + label@ + decimal(ms as nat) =~= old(command)@ + (label@
                + decimal(ms as nat)));
        },
        None => {
            assert(old(command)@ + Seq::<char>::empty() =~= old(command)@);
        },
    }
}

/// Writes the command that starts a calculation bounded by the two clocks.
pub fn go_times(white_time: Option<u32>, black_time: Option<u32>) -> (command: String)
    ensures
        command@ == go_times_text(white_time, black_time),
{
    let mut command = String::from_str("go");
    push_clock(&mut command, " wtime ", white_time);
    push_clock(&mut command, " btime ", black_time);
    command
}

/// Writes the command that sets the engine's option `name` to `value`.
pub fn set_option(name: &str, value: &str) -> (command: String)
    ensures
        command@ == set_option_text(name@, value@),
{
    let mut command = String::from_str("setoption name ");
    command.append(name);
    command.append(" value ");
    command.append(value);
    command
}

} // verus!
