//! A session layer for a UCI chess engine that runs as a subprocess.
//!
//! The library holds the protocol and none of the plumbing: it says which
//! commands to write and what to make of each line that comes back, and
//! leaves the writing and the reading to its caller.
//!
//! - [`Stockfish`] is the session: it begins exchanges and is fed the
//!   engine's lines one by one.
//! - [`EngineEval`], [`EvalType`] and [`EngineOutput`] structure what the
//!   engine concluded.
pub mod command;
pub mod decimal;
pub mod engine_eval;
pub mod engine_output;
pub mod error;
pub mod laws;
pub mod parser;
pub mod session;
pub mod stockfish;
pub mod text;

pub use crate::engine_eval::{EngineEval, EvalType};
pub use crate::engine_output::{EngineOutput, EngineOutputView};
pub use crate::error::{EngineError, Malformed};
pub use crate::session::{Goal, Next, Phase, Replay, Reply, Step};
pub use crate::stockfish::Stockfish;
