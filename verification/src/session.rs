//! The values that pass between the session and its caller, and the model
//! of the session's state machine.
//!
//! The session does no input or output. It hands its caller a [`Step`]: the
//! commands to write to the engine, in order, and what to do after that:
//! pull one line and hand it over, sleep and report back, or take the reply.
use crate::command::{dump_text, new_game_text, position_moves_text, stop_text};
use crate::engine_output::{EngineOutput, EngineOutputView};
use crate::error::EngineError;
use crate::parser::{
    ends_dump, fen_of, is_fen_line, is_ready_line, is_terminal_line, output_of,
};
use crate::text::join;
use std::time::Duration;
use vstd::prelude::*;
use vstd::string::*;

verus! {

/// What a fetch of the position is made for.
#[derive(Debug, PartialEq, Eq)]
pub enum Goal {
    /// To hand the position to the caller.
    Report,
    /// To play these moves on it; they stand here with single spaces
    /// between them.
    Play(String),
    /// To read the result of a calculation that was begun on it.
    Evaluate,
}

/// A [`Goal`] with its text as a sequence of characters.
pub enum GoalView {
    Report,
    Play(Seq<char>),
    Evaluate,
}

impl View for Goal {
    type V = GoalView;

    open spec fn view(&self) -> GoalView {
        match self {
            Goal::Report => GoalView::Report,
            Goal::Play(moves) => GoalView::Play(moves@),
            Goal::Evaluate => GoalView::Evaluate,
        }
    }
}

/// Where the session stands in its exchange with the engine.
#[derive(Debug, PartialEq, Eq)]
pub enum Phase {
    /// No exchange is under way.
    Idle,
    /// A readiness probe was written; the acknowledgment is awaited. With
    /// `new_game`, a new game is announced once it has come.
    AwaitReady { new_game: bool },
    /// A position dump was asked for; the line that carries the position is
    /// awaited.
    ScanFen { goal: Goal },
    /// The position is known; the rest of the dump is being discarded.
    DrainFen { goal: Goal, fen: String },
    /// A position dump was asked for its picture of the board; the rows
    /// that came so far are kept.
    ScanBoard { rows: Vec<String> },
    /// The picture is complete; the rest of the dump is being discarded.
    DrainBoard { rows: Vec<String> },
    /// A calculation was started and the caller sleeps before it is stopped.
    Pausing,
    /// A calculation runs on the position `fen`; the terminal line is
    /// awaited, and `previous` is the last line that came since the dump.
    AwaitBestMove { fen: String, previous: Option<String> },
}

/// A [`Phase`] with its texts as sequences of characters.
#[verifier::ext_equal]
pub enum PhaseView {
    Idle,
    AwaitReady { new_game: bool },
    ScanFen { goal: GoalView },
    DrainFen { goal: GoalView, fen: Seq<char> },
    ScanBoard { rows: Seq<Seq<char>> },
    DrainBoard { rows: Seq<Seq<char>> },
    Pausing,
    AwaitBestMove { fen: Seq<char>, previous: Option<Seq<char>> },
}

impl View for Phase {
    type V = PhaseView;

    open spec fn view(&self) -> PhaseView {
        match self {
            Phase::Idle => PhaseView::Idle,
            Phase::AwaitReady { new_game } => PhaseView::AwaitReady { new_game: *new_game },
            Phase::ScanFen { goal } => PhaseView::ScanFen { goal: goal@ },
            Phase::DrainFen { goal, fen } => PhaseView::DrainFen { goal: goal@, fen: fen@ },
            Phase::ScanBoard { rows } => PhaseView::ScanBoard { rows: rows.deep_view() },
            Phase::DrainBoard { rows } => PhaseView::DrainBoard { rows: rows.deep_view() },
            Phase::Pausing => PhaseView::Pausing,
            Phase::AwaitBestMove { fen, previous } => PhaseView::AwaitBestMove {
                fen: fen@,
                previous: previous.deep_view(),
            },
        }
    }
}

impl PhaseView {
    /// Whether the session waits for a line of the engine in this phase.
    pub open spec fn reading(self) -> bool {
        !(self is Idle) && !(self is Pausing)
    }
}

/// How an exchange ended.
#[derive(Debug, PartialEq, Eq)]
pub enum Reply {
    /// It is complete and has nothing to report.
    Done,
    /// It is complete and reports a text: a position or a picture of the
    /// board.
    Text(String),
    /// It is complete and reports the result of a calculation.
    Output(EngineOutput),
    /// It was given up.
    Failed(EngineError),
}

/// A [`Reply`] with its texts as sequences of characters.
pub enum ReplyView {
    Done,
    Text(Seq<char>),
    Output(EngineOutputView),
    Failed(EngineError),
}

impl View for Reply {
    type V = ReplyView;

    open spec fn view(&self) -> ReplyView {
        match self {
            Reply::Done => ReplyView::Done,
            Reply::Text(text) => ReplyView::Text(text@),
            Reply::Output(output) => ReplyView::Output(output@),
            Reply::Failed(error) => ReplyView::Failed(*error),
        }
    }
}

/// What the caller is to do once it has written a step's commands.
#[derive(Debug, PartialEq, Eq)]
pub enum Next {
    /// Pull one line from the engine and hand it to the session; where the
    /// engine's output has ended, tell the session so.
    Read,
    /// Sleep for this long, then wake the session.
    Sleep(Duration),
    /// Nothing more: the exchange is over, and this is its reply.
    Done(Reply),
}

/// A [`Next`] with its texts as sequences of characters.
pub enum NextView {
    Read,
    Sleep(Duration),
    Done(ReplyView),
}

impl View for Next {
    type V = NextView;

    open spec fn view(&self) -> NextView {
        match self {
            Next::Read => NextView::Read,
            Next::Sleep(time) => NextView::Sleep(*time),
            Next::Done(reply) => NextView::Done(reply@),
        }
    }
}

/// One step of an exchange: commands for the caller to write to the engine,
/// in order, and what to do after that.
#[derive(Debug, PartialEq, Eq)]
pub struct Step {
    pub commands: Vec<String>,
    pub next: Next,
}

/// A [`Step`] with its texts as sequences of characters.
#[verifier::ext_equal]
pub struct StepView {
    pub commands: Seq<Seq<char>>,
    pub next: NextView,
}

impl View for Step {
    type V = StepView;

    open spec fn view(&self) -> StepView {
        StepView { commands: self.commands.deep_view(), next: self.next@ }
    }
}

impl StepView {
    /// The step that writes nothing and pulls a line.
    pub open spec fn read() -> StepView {
        StepView { commands: Seq::empty(), next: NextView::Read }
    }

    /// The step that writes nothing and ends the exchange with `reply`.
    pub open spec fn done(reply: ReplyView) -> StepView {
        StepView { commands: Seq::empty(), next: NextView::Done(reply) }
    }

    /// The step that writes nothing and gives the exchange up.
    pub open spec fn failed(error: EngineError) -> StepView {
        Self::done(ReplyView::Failed(error))
    }

    /// The step that answers a call out of turn.
    pub open spec fn refused() -> StepView {
        Self::failed(EngineError::OutOfTurn)
    }
}

/// What the session holds, with its texts as sequences of characters.
#[verifier::ext_equal]
pub struct SessionView {
    /// The depth to which `go` makes the engine calculate.
    pub depth: u32,
    /// The version that the engine announced at its start, if it did.
    pub version: Option<Seq<char>>,
    /// Whether the engine has acknowledged a readiness probe since the
    /// session began.
    pub ready: bool,
    /// Where the session stands in its exchange.
    pub phase: PhaseView,
}

impl SessionView {
    /// This session in another phase.
    pub open spec fn at(self, phase: PhaseView) -> SessionView {
        SessionView { phase, ..self }
    }

    /// The beginning of an exchange: from rest, the session enters `phase`
    /// and hands out `commands` and `next`; while an exchange is under way
    /// it stays as it is and refuses.
    pub open spec fn begin(self, commands: Seq<Seq<char>>, next: NextView, phase: PhaseView) -> (
        SessionView,
        StepView,
    ) {
        if self.phase is Idle {
            (self.at(phase), StepView { commands, next })
        } else {
            (self, StepView::refused())
        }
    }

    /// What the end of a position dump brings, once the position `fen` is
    /// known, for each goal.
    pub open spec fn after_dump(self, goal: GoalView, fen: Seq<char>) -> (SessionView, StepView) {
        match goal {
            GoalView::Report => (
                self.at(PhaseView::Idle),
                StepView::done(ReplyView::Text(fen)),
            ),
            GoalView::Play(moves) => (
                self.at(PhaseView::Idle),
                StepView {
                    commands: seq![position_moves_text(fen, moves)],
                    next: NextView::Done(ReplyView::Done),
                },
            ),
            GoalView::Evaluate => (
                self.at(PhaseView::AwaitBestMove { fen, previous: None }),
                StepView::read(),
            ),
        }
    }

    /// What one line of the engine brings: the session after it, and the
    /// step that it hands out.
    pub open spec fn on_line(self, line: Seq<char>) -> (SessionView, StepView) {
        match self.phase {
            PhaseView::Idle => (self, StepView::refused()),
            PhaseView::Pausing => (self, StepView::refused()),
            PhaseView::AwaitReady { new_game } => if is_ready_line(line) {
                (
                    SessionView { ready: true, phase: PhaseView::Idle, ..self },
                    StepView {
                        commands: if new_game {
                            seq![new_game_text()]
                        } else {
                            Seq::empty()
                        },
                        next: NextView::Done(ReplyView::Done),
                    },
                )
            } else {
                (self, StepView::read())
            },
            PhaseView::ScanFen { goal } => if is_fen_line(line) {
                (self.at(PhaseView::DrainFen { goal, fen: fen_of(line) }), StepView::read())
            } else {
                (self, StepView::read())
            },
            PhaseView::DrainFen { goal, fen } => if ends_dump(line) {
                self.after_dump(goal, fen)
            } else {
                (self, StepView::read())
            },
            PhaseView::ScanBoard { rows } => if is_fen_line(line) {
                (self.at(PhaseView::DrainBoard { rows }), StepView::read())
            } else if line.len() == 0 {
                (self, StepView::read())
            } else {
                (self.at(PhaseView::ScanBoard { rows: rows.push(line) }), StepView::read())
            },
            PhaseView::DrainBoard { rows } => if ends_dump(line) {
                (
                    self.at(PhaseView::Idle),
                    StepView::done(ReplyView::Text(join(rows, seq!['\n']))),
                )
            } else {
                (self, StepView::read())
            },
            PhaseView::AwaitBestMove { fen, previous } => if is_terminal_line(line) {
                (
                    self.at(PhaseView::Idle),
                    match output_of(fen, previous, line) {
                        Ok(output) => StepView::done(ReplyView::Output(output)),
                        Err(error) => StepView::failed(error),
                    },
                )
            } else {
                (
                    self.at(PhaseView::AwaitBestMove { fen, previous: Some(line) }),
                    StepView::read(),
                )
            },
        }
    }

    /// What the end of the caller's sleep brings: the calculation is stopped
    /// and its position asked for.
    pub open spec fn on_wake(self) -> (SessionView, StepView) {
        if self.phase is Pausing {
            (
                self.at(PhaseView::ScanFen { goal: GoalView::Evaluate }),
                StepView { commands: seq![stop_text(), dump_text()], next: NextView::Read },
            )
        } else {
            (self, StepView::refused())
        }
    }

    /// What the end of the engine's output brings: an exchange that waits
    /// for a line is given up.
    pub open spec fn on_closed(self) -> (SessionView, StepView) {
        if self.phase.reading() {
            (self.at(PhaseView::Idle), StepView::failed(EngineError::Disconnected))
        } else {
            (self, StepView::refused())
        }
    }

    /// What a run of lines brings when they are handed over one by one, for
    /// as long as the session asks for a line: the session after them, how
    /// many it took, the commands it handed out on the way, and what it
    /// asked for last.
    pub open spec fn run(self, lines: Seq<Seq<char>>) -> RunView
        decreases lines.len(),
    {
        if lines.len() == 0 {
            RunView { session: self, consumed: 0, commands: Seq::empty(), next: NextView::Read }
        } else {
            let (session, step) = self.on_line(lines[0]);
            if step.next is Read {
                let rest = session.run(lines.skip(1));
                RunView {
                    session: rest.session,
                    consumed: rest.consumed + 1,
                    commands: step.commands + rest.commands,
                    next: rest.next,
                }
            } else {
                RunView { session, consumed: 1, commands: step.commands, next: step.next }
            }
        }
    }
}

/// The outcome of handing a run of lines to the session.
#[verifier::ext_equal]
pub struct RunView {
    /// The session afterwards.
    pub session: SessionView,
    /// How many of the lines the session took. The lines after them are
    /// left for the next exchange.
    pub consumed: nat,
    /// The commands that the session handed out on the way, in order.
    pub commands: Seq<Seq<char>>,
    /// What the session asked for last: still a line, where the lines ran
    /// out before the exchange was over.
    pub next: NextView,
}

impl RunView {
    /// This outcome where `k` more lines were taken before it.
    pub open spec fn after(self, k: nat) -> RunView {
        RunView { consumed: self.consumed + k, ..self }
    }

    /// The outcome of an exchange that ends with `step` once `consumed`
    /// lines were taken.
    pub open spec fn ended(session: SessionView, consumed: nat, step: StepView) -> RunView {
        RunView { session, consumed, commands: step.commands, next: step.next }
    }
}

/// The outcome of handing a run of lines to the session.
#[derive(Debug, PartialEq, Eq)]
pub struct Replay {
    /// How many of the lines the session took.
    pub consumed: usize,
    /// The commands that the session handed out on the way, in order.
    pub commands: Vec<String>,
    /// What the session asked for last.
    pub next: Next,
}

impl Replay {
    /// This outcome as a model value, beside the session that it left.
    pub open spec fn with(&self, session: SessionView) -> RunView {
        RunView {
            session,
            consumed: self.consumed as nat,
            commands: self.commands.deep_view(),
            next: self.next@,
        }
    }
}

} // verus!
