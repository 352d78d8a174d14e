//! What can go wrong in an exchange with the engine, as far as the session
//! itself can tell.
use vstd::prelude::*;

verus! {

/// The ways in which the engine's output can break the grammar that the
/// session expects.
#[derive(Debug, Clone, Copy, PartialEq, Eq, Structural)]
pub enum Malformed {
    /// The `bestmove` line names no move.
    MissingBestMove,
    /// No line came between the position dump and the `bestmove` line, or
    /// the last such line holds no `score` field with two fields after it.
    MissingScore,
    /// The field after `score` is neither `cp` nor `mate`.
    UnknownEvalType,
    /// The second field after `score` is no 32-bit integer, or its negation
    /// for the side to move is none.
    InvalidScore,
}

/// Why an exchange with the engine was given up.
#[derive(Debug, Clone, Copy, PartialEq, Eq, Structural)]
pub enum EngineError {
    /// The engine's output stream ended while the session was waiting for a
    /// line: the engine has terminated.
    Disconnected,
    /// The engine answered, but not in the expected form.
    Protocol(Malformed),
    /// The session was handed an event that it had not asked for, or was
    /// asked to begin an exchange while another was under way.
    OutOfTurn,
}

} // verus!
