//! The session with the engine.
use crate::command::{
    dump_text, go_depth, go_depth_text, go_text, go_times, go_times_text, is_ready_text,
    position, position_moves, position_text, quit_text, set_option, set_option_text,
    start_position_text,
};
use crate::decimal::{decimal, u32_text};
use crate::error::EngineError;
use crate::parser::{
    dump_end, fen_payload, parse_engine_output, parse_version, ready_line, terminal_line,
    version_of,
};
use crate::session::{
    Goal, GoalView, Next, NextView, Phase, PhaseView, Replay, Reply, ReplyView, RunView,
    SessionView, Step, StepView,
};
use crate::text::{join, join_text, to_strings};
use std::time::Duration;
use vstd::prelude::*;
use vstd::string::*;

verus! {

/// The depth to which a new session makes the engine calculate.
pub const DEFAULT_DEPTH: u32 = 15;

/// The session with a chess engine that speaks UCI.
///
/// The session decides and its caller acts. Each method that begins an
/// exchange returns a [`Step`]; the caller writes the step's commands to the
/// engine and then does what the step asks next, handing each line of the
/// engine to [`Stockfish::on_line`] until a step ends the exchange.
#[derive(Debug)]
pub struct Stockfish {
    depth: u32,
    version: Option<String>,
    ready: bool,
    phase: Phase,
}

impl View for Stockfish {
    type V = SessionView;

    closed spec fn view(&self) -> SessionView {
        SessionView {
            depth: self.depth,
            version: self.version.deep_view(),
            ready: self.ready,
            phase: self.phase@,
        }
    }
}

/// The step that writes nothing and pulls a line.
fn reading() -> (step: Step)
    ensures
        step@ == StepView::read(),
{
    let step = Step { commands: Vec::new(), next: Next::Read };
    assert(step.commands.deep_view() =~= Seq::<Seq<char>>::empty());
    step
}

/// The step that writes nothing and ends the exchange with `reply`.
fn finished(reply: Reply) -> (step: Step)
    ensures
        step@ == StepView::done(reply@),
{
    let step = Step { commands: Vec::new(), next: Next::Done(reply) };
    assert(step.commands.deep_view() =~= Seq::<Seq<char>>::empty());
    step
}

/// One command as a list.
fn one(command: String) -> (commands: Vec<String>)
    ensures
        commands.deep_view() == seq![command@],
{
    let mut commands: Vec<String> = Vec::new();
    commands.push(command);
    assert(commands.deep_view() =~= seq![command@]);
    commands
}

/// Two commands as a list.
fn two(first: String, second: String) -> (commands: Vec<String>)
    ensures
        commands.deep_view() == seq![first@, second@],
{
    let mut commands: Vec<String> = Vec::new();
    commands.push(first);
    commands.push(second);
    assert(commands.deep_view() =~= seq![first@, second@]);
    commands
}

impl Stockfish {
    /// Opens the session on the first line that the engine printed at its
    /// start. The session is at rest, calculates to depth 15, and knows the
    /// engine's version where that line names one as its second token.
    pub fn new(first_line: &str) -> (session: Stockfish)
        ensures
            session@ == (SessionView {
                depth: DEFAULT_DEPTH,
                version: version_of(first_line@),
                ready: false,
                phase: PhaseView::Idle,
            }),
    {
        Stockfish {
            depth: DEFAULT_DEPTH,
            version: parse_version(first_line),
            ready: false,
            phase: Phase::Idle,
        }
    }

    /// Begins an exchange, unless one is under way.
    fn begin(&mut self, commands: Vec<String>, next: Next, phase: Phase) -> (step: Step)
        ensures
            final(self)@ == old(self)@.begin(commands.deep_view(), next@, phase@).0,
            step@ == old(self)@.begin(commands.deep_view(), next@, phase@).1,
    {
        match self.phase {
            Phase::Idle => {
                self.phase = phase;
                Step { commands, next }
            },
            _ => finished(Reply::Failed(EngineError::OutOfTurn)),
        }
    }

    /// Begins an exchange that only writes `commands`.
    fn send(&mut self, commands: Vec<String>) -> (step: Step)
        ensures
            final(self)@ == old(self)@.begin(
                commands.deep_view(),
                NextView::Done(ReplyView::Done),
                PhaseView::Idle,
            ).0,
            step@ == old(self)@.begin(
                commands.deep_view(),
                NextView::Done(ReplyView::Done),
                PhaseView::Idle,
            ).1,
    {
        self.begin(commands, Next::Done(Reply::Done), Phase::Idle)
    }

    /// Prepares the engine for a new game. Should be called to tell the
    /// engine that the next position will be from a different game.
    ///
    /// Writes the readiness probe, discards lines until the engine
    /// acknowledges it, and then announces the new game.
    pub fn setup_for_new_game(&mut self) -> (step: Step)
        ensures
            final(self)@ == old(self)@.begin(
                seq![is_ready_text()],
                NextView::Read,
                PhaseView::AwaitReady { new_game: true },
            ).0,
            step@ == old(self)@.begin(
                seq![is_ready_text()],
                NextView::Read,
                PhaseView::AwaitReady { new_game: true },
            ).1,
    {
        self.begin(one(String::from_str("isready")), Next::Read, Phase::AwaitReady { new_game: true })
    }

    /// Changes the position that the engine works on. The argument is a
    /// position in Forsyth-Edwards notation.
    pub fn set_fen_position(&mut self, fen: &str) -> (step: Step)
        ensures
            final(self)@ == old(self)@.begin(
                seq![position_text(fen@)],
                NextView::Done(ReplyView::Done),
                PhaseView::Idle,
            ).0,
            step@ == old(self)@.begin(
                seq![position_text(fen@)],
                NextView::Done(ReplyView::Done),
                PhaseView::Idle,
            ).1,
    {
        self.send(one(position(fen)))
    }

    /// Reverts the position to the starting position of chess.
    pub fn reset_position(&mut self) -> (step: Step)
        ensures
            final(self)@ == old(self)@.begin(
                seq![start_position_text()],
                NextView::Done(ReplyView::Done),
                PhaseView::Idle,
            ).0,
            step@ == old(self)@.begin(
                seq![start_position_text()],
                NextView::Done(ReplyView::Done),
                PhaseView::Idle,
            ).1,
    {
        self.send(one(String::from_str("position startpos")))
    }

    /// Makes sure that the engine is ready to receive its inputs: writes
    /// the readiness probe and discards lines until the engine acknowledges
    /// it with a line that reads `readyok`.
    pub fn ensure_ready(&mut self) -> (step: Step)
        ensures
            final(self)@ == old(self)@.begin(
                seq![is_ready_text()],
                NextView::Read,
                PhaseView::AwaitReady { new_game: false },
            ).0,
            step@ == old(self)@.begin(
                seq![is_ready_text()],
                NextView::Read,
                PhaseView::AwaitReady { new_game: false },
            ).1,
    {
        self.begin(
            one(String::from_str("isready")),
            Next::Read,
            Phase::AwaitReady { new_game: false },
        )
    }

    /// Fetches the position that the engine works on, in Forsyth-Edwards
    /// notation: asks for a dump, takes the position from the line that
    /// opens with `Fen:`, and discards the rest of the dump, up to and
    /// with the line that holds `Checkers`.
    pub fn get_fen(&mut self) -> (step: Step)
        ensures
            final(self)@ == old(self)@.begin(
                seq![dump_text()],
                NextView::Read,
                PhaseView::ScanFen { goal: GoalView::Report },
            ).0,
            step@ == old(self)@.begin(
                seq![dump_text()],
                NextView::Read,
                PhaseView::ScanFen { goal: GoalView::Report },
            ).1,
    {
        self.begin(one(String::from_str("d")), Next::Read, Phase::ScanFen { goal: Goal::Report })
    }

    /// Plays a move on the position that the engine works on: fetches the
    /// position and then sets it anew with the move after it. This only
    /// updates the board; the engine does not begin to calculate.
    pub fn play_move(&mut self, move_str: &str) -> (step: Step)
        ensures
            final(self)@ == old(self)@.begin(
                seq![dump_text()],
                NextView::Read,
                PhaseView::ScanFen { goal: GoalView::Play(move_str@) },
            ).0,
            step@ == old(self)@.begin(
                seq![dump_text()],
                NextView::Read,
                PhaseView::ScanFen { goal: GoalView::Play(move_str@) },
            ).1,
    {
        self.begin(
            one(String::from_str("d")),
            Next::Read,
            Phase::ScanFen { goal: Goal::Play(String::from_str(move_str)) },
        )
    }

    /// Plays a sequence of moves on the position that the engine works on:
    /// fetches the position and then sets it anew with the moves after it,
    /// single spaces between them.
    pub fn play_moves(&mut self, moves: &[&str]) -> (step: Step)
        ensures
            final(self)@ == old(self)@.begin(
                seq![dump_text()],
                NextView::Read,
                PhaseView::ScanFen { goal: GoalView::Play(join(moves.deep_view(), seq![' '])) },
            ).0,
            step@ == old(self)@.begin(
                seq![dump_text()],
                NextView::Read,
                PhaseView::ScanFen { goal: GoalView::Play(join(moves.deep_view(), seq![' '])) },
            ).1,
    {
        proof {
            reveal_strlit(" ");
        }
        assert(" "@ =~= seq![' ']);
        let joined = join_text(&to_strings(moves), " ");
        self.begin(
            one(String::from_str("d")),
            Next::Read,
            Phase::ScanFen { goal: Goal::Play(joined) },
        )
    }

    /// Makes the engine calculate to the depth that has been set (15 unless
    /// it was changed), and reads the result: the position first, then the
    /// lines up to the one that opens with `bestmove`.
    pub fn go(&mut self) -> (step: Step)
        ensures
            final(self)@ == old(self)@.begin(
                seq![go_depth_text(old(self)@.depth), dump_text()],
                NextView::Read,
                PhaseView::ScanFen { goal: GoalView::Evaluate },
            ).0,
            step@ == old(self)@.begin(
                seq![go_depth_text(old(self)@.depth), dump_text()],
                NextView::Read,
                PhaseView::ScanFen { goal: GoalView::Evaluate },
            ).1,
    {
        let commands = two(go_depth(self.depth), String::from_str("d"));
        self.begin(commands, Next::Read, Phase::ScanFen { goal: Goal::Evaluate })
    }

    /// Makes the engine calculate for the given time: starts the
    /// calculation and has the caller sleep for that long. On waking
    /// ([`Stockfish::on_wake`]) the calculation is stopped and its result
    /// read.
    pub fn go_for(&mut self, calculation_time: Duration) -> (step: Step)
        ensures
            final(self)@ == old(self)@.begin(
                seq![go_text()],
                NextView::Sleep(calculation_time),
                PhaseView::Pausing,
            ).0,
            step@ == old(self)@.begin(
                seq![go_text()],
                NextView::Sleep(calculation_time),
                PhaseView::Pausing,
            ).1,
    {
        self.begin(one(String::from_str("go")), Next::Sleep(calculation_time), Phase::Pausing)
    }

    /// Makes the engine calculate for a time of its choosing, given the
    /// clocks of the two sides in milliseconds, and reads the result. A
    /// clock that is not given is not mentioned to the engine.
    pub fn go_based_on_times(&mut self, white_time: Option<u32>, black_time: Option<u32>) -> (step:
        Step)
        ensures
            final(self)@ == old(self)@.begin(
                seq![go_times_text(white_time, black_time), dump_text()],
                NextView::Read,
                PhaseView::ScanFen { goal: GoalView::Evaluate },
            ).0,
            step@ == old(self)@.begin(
                seq![go_times_text(white_time, black_time), dump_text()],
                NextView::Read,
                PhaseView::ScanFen { goal: GoalView::Evaluate },
            ).1,
    {
        let commands = two(go_times(white_time, black_time), String::from_str("d"));
        self.begin(commands, Next::Read, Phase::ScanFen { goal: Goal::Evaluate })
    }

    /// Sets the depth to which [`Stockfish::go`] makes the engine calculate.
    pub fn set_depth(&mut self, depth: u32)
        ensures
            final(self)@ == (SessionView { depth, ..old(self)@ }),
    {
        self.depth = depth;
    }

    /// The depth to which [`Stockfish::go`] makes the engine calculate.
    pub fn depth(&self) -> (depth: u32)
        ensures
            depth == self@.depth,
    {
        self.depth
    }

    /// Whether the engine has acknowledged a readiness probe in this
    /// session.
    pub fn is_ready(&self) -> (ready: bool)
        ensures
            ready == self@.ready,
    {
        self.ready
    }

    /// Whether no exchange is under way.
    pub fn is_idle(&self) -> (idle: bool)
        ensures
            idle == (self@.phase is Idle),
    {
        match self.phase {
            Phase::Idle => true,
            _ => false,
        }
    }

    /// Fetches the engine's picture of the board: asks for a dump, keeps
    /// the lines before the one that opens with `Fen:`, empty lines left
    /// out, and discards the rest of the dump. The reply holds the lines
    /// kept, with a newline between neighbours.
    pub fn get_board_display(&mut self) -> (step: Step)
        ensures
            final(self)@ == old(self)@.begin(
                seq![dump_text()],
                NextView::Read,
                PhaseView::ScanBoard { rows: Seq::empty() },
            ).0,
            step@ == old(self)@.begin(
                seq![dump_text()],
                NextView::Read,
                PhaseView::ScanBoard { rows: Seq::empty() },
            ).1,
    {
        let rows: Vec<String> = Vec::new();
        assert(rows.deep_view() =~= Seq::<Seq<char>>::empty());
        self.begin(one(String::from_str("d")), Next::Read, Phase::ScanBoard { rows })
    }

    /// Sets an option of the engine.
    pub fn set_option(&mut self, option_name: &str, option_value: &str) -> (step: Step)
        ensures
            final(self)@ == old(self)@.begin(
                seq![set_option_text(option_name@, option_value@)],
                NextView::Done(ReplyView::Done),
                PhaseView::Idle,
            ).0,
            step@ == old(self)@.begin(
                seq![set_option_text(option_name@, option_value@)],
                NextView::Done(ReplyView::Done),
                PhaseView::Idle,
            ).1,
    {
        self.send(one(set_option(option_name, option_value)))
    }

    /// Sets the size of the engine's hash table, in megabytes.
    pub fn set_hash(&mut self, hash: u32) -> (step: Step)
        ensures
            final(self)@ == old(self)@.begin(
                seq![set_option_text("Hash"@, decimal(hash as nat))],
                NextView::Done(ReplyView::Done),
                PhaseView::Idle,
            ).0,
            step@ == old(self)@.begin(
                seq![set_option_text("Hash"@, decimal(hash as nat))],
                NextView::Done(ReplyView::Done),
                PhaseView::Idle,
            ).1,
    {
        self.set_option("Hash", u32_text(hash).as_str())
    }

    /// Sets the number of threads that the engine calculates with.
    pub fn set_threads(&mut self, threads: u32) -> (step: Step)
        ensures
            final(self)@ == old(self)@.begin(
                seq![set_option_text("Threads"@, decimal(threads as nat))],
                NextView::Done(ReplyView::Done),
                PhaseView::Idle,
            ).0,
            step@ == old(self)@.begin(
                seq![set_option_text("Threads"@, decimal(threads as nat))],
                NextView::Done(ReplyView::Done),
                PhaseView::Idle,
            ).1,
    {
        self.set_option("Threads", u32_text(threads).as_str())
    }

    /// Sets the Elo rating at which the engine aims to play: switches the
    /// limit of strength on and sets the rating. Overrides
    /// [`Stockfish::set_skill_level`].
    pub fn set_elo(&mut self, elo: u32) -> (step: Step)
        ensures
            final(self)@ == old(self)@.begin(
                seq![
                    set_option_text("UCI_LimitStrength"@, "true"@),
                    set_option_text("Elo"@, decimal(elo as nat)),
                ],
                NextView::Done(ReplyView::Done),
                PhaseView::Idle,
            ).0,
            step@ == old(self)@.begin(
                seq![
                    set_option_text("UCI_LimitStrength"@, "true"@),
                    set_option_text("Elo"@, decimal(elo as nat)),
                ],
                NextView::Done(ReplyView::Done),
                PhaseView::Idle,
            ).1,
    {
        let commands = two(
            set_option("UCI_LimitStrength", "true"),
            set_option("Elo", u32_text(elo).as_str()),
        );
        self.send(commands)
    }

    /// Sets the skill level at which the engine aims to play, from 0
    /// (weakest) to 20: switches the limit of strength off and sets the
    /// level. Overrides [`Stockfish::set_elo`].
    pub fn set_skill_level(&mut self, skill_level: u32) -> (step: Step)
        ensures
            final(self)@ == old(self)@.begin(
                seq![
                    set_option_text("UCI_LimitStrength"@, "false"@),
                    set_option_text("Skill Level"@, decimal(skill_level as nat)),
                ],
                NextView::Done(ReplyView::Done),
                PhaseView::Idle,
            ).0,
            step@ == old(self)@.begin(
                seq![
                    set_option_text("UCI_LimitStrength"@, "false"@),
                    set_option_text("Skill Level"@, decimal(skill_level as nat)),
                ],
                NextView::Done(ReplyView::Done),
                PhaseView::Idle,
            ).1,
    {
        let commands = two(
            set_option("UCI_LimitStrength", "false"),
            set_option("Skill Level", u32_text(skill_level).as_str()),
        );
        self.send(commands)
    }

    /// Returns the version of the engine, or [`None`] if its first line
    /// named none.
    pub fn get_version(&self) -> (version: &Option<String>)
        ensures
            version.deep_view() == self@.version,
    {
        &self.version
    }

    /// Tells the engine to quit.
    pub fn quit(&mut self) -> (step: Step)
        ensures
            final(self)@ == old(self)@.begin(
                seq![quit_text()],
                NextView::Done(ReplyView::Done),
                PhaseView::Idle,
            ).0,
            step@ == old(self)@.begin(
                seq![quit_text()],
                NextView::Done(ReplyView::Done),
                PhaseView::Idle,
            ).1,
    {
        self.send(one(String::from_str("quit")))
    }

    /// Sends a command to the engine as it stands.
    ///
    /// Use carefully: the session reads nothing that the command may make
    /// the engine print.
    pub fn uci_send(&mut self, command: &str) -> (step: Step)
        ensures
            final(self)@ == old(self)@.begin(
                seq![command@],
                NextView::Done(ReplyView::Done),
                PhaseView::Idle,
            ).0,
            step@ == old(self)@.begin(
                seq![command@],
                NextView::Done(ReplyView::Done),
                PhaseView::Idle,
            ).1,
    {
        self.send(one(String::from_str(command)))
    }

    /// What the end of a position dump brings, once the position is known.
    fn after_dump(&mut self, goal: Goal, fen: String) -> (step: Step)
        requires
            old(self)@.phase is Idle,
        ensures
            final(self)@ == old(self)@.after_dump(goal@, fen@).0,
            step@ == old(self)@.after_dump(goal@, fen@).1,
    {
        match goal {
            Goal::Report => finished(Reply::Text(fen)),
            Goal::Play(moves) => Step {
                commands: one(position_moves(fen.as_str(), moves.as_str())),
                next: Next::Done(Reply::Done),
            },
            Goal::Evaluate => {
                self.phase = Phase::AwaitBestMove { fen, previous: None };
                reading()
            },
        }
    }

    /// Takes one line of the engine's output and says what to do next.
    ///
    /// To be called with the line that was pulled after a step asked to
    /// read. A line that the session did not ask for changes nothing and is
    /// answered with [`EngineError::OutOfTurn`].
    ///
    /// - While the acknowledgment of a readiness probe is awaited, every
    ///   line but `readyok` is discarded; `readyok` ends the exchange.
    /// - When a position was asked for, every line is passed over,
    ///   whatever it holds, until one opens with `Fen:`. That line gives
    ///   the position, and the lines after it are discarded up to and with
    ///   the first that holds `Checkers`.
    /// - When the picture of the board was asked for, the lines before the
    ///   one that opens with `Fen:` are kept as its rows, empty lines left
    ///   out, and the lines after it are discarded in the same way.
    /// - After the dump that follows the start of a calculation, the last
    ///   line is kept until the line that opens with `bestmove` arrives;
    ///   that line and the one kept give the result.
    pub fn on_line(&mut self, line: &str) -> (step: Step)
        ensures
            final(self)@ == old(self)@.on_line(line@).0,
            step@ == old(self)@.on_line(line@).1,
    {
        let mut phase = Phase::Idle;
        core::mem::swap(&mut self.phase, &mut phase);
        match phase {
            Phase::Idle => finished(Reply::Failed(EngineError::OutOfTurn)),
            Phase::Pausing => {
                self.phase = Phase::Pausing;
                finished(Reply::Failed(EngineError::OutOfTurn))
            },
            Phase::AwaitReady { new_game } => {
                if ready_line(line) {
                    self.ready = true;
                    let commands = if new_game {
                        one(String::from_str("ucinewgame"))
                    } else {
                        let none: Vec<String> = Vec::new();
                        assert(none.deep_view() =~= Seq::<Seq<char>>::empty());
                        none
                    };
                    Step { commands, next: Next::Done(Reply::Done) }
                } else {
                    self.phase = Phase::AwaitReady { new_game };
                    reading()
                }
            },
            Phase::ScanFen { goal } => {
                match fen_payload(line) {
                    Some(fen) => {
                        self.phase = Phase::DrainFen { goal, fen };
                        reading()
                    },
                    None => {
                        self.phase = Phase::ScanFen { goal };
                        reading()
                    },
                }
            },
            Phase::DrainFen { goal, fen } => {
                if dump_end(line) {
                    self.after_dump(goal, fen)
                } else {
                    self.phase = Phase::DrainFen { goal, fen };
                    reading()
                }
            },
            Phase::ScanBoard { rows } => {
                match fen_payload(line) {
                    Some(_) => {
                        self.phase = Phase::DrainBoard { rows };
                        reading()
                    },
                    None => {
                        let mut rows = rows;
                        if line.unicode_len() > 0 {
                            let ghost before = rows.deep_view();
                            rows.push(String::from_str(line));
                            assert(rows.deep_view() =~= before.push(line@));
                        }
                        self.phase = Phase::ScanBoard { rows };
                        reading()
                    },
                }
            },
            Phase::DrainBoard { rows } => {
                if dump_end(line) {
                    proof {
                        reveal_strlit("\n");
                    }
                    assert("\n"@ =~= seq!['\n']);
                    finished(Reply::Text(join_text(&rows, "\n")))
                } else {
                    self.phase = Phase::DrainBoard { rows };
                    reading()
                }
            },
            Phase::AwaitBestMove { fen, previous } => {
                if terminal_line(line) {
                    match parse_engine_output(fen.as_str(), &previous, line) {
                        Ok(output) => finished(Reply::Output(output)),
                        Err(error) => finished(Reply::Failed(error)),
                    }
                } else {
                    self.phase = Phase::AwaitBestMove {
                        fen,
                        previous: Some(String::from_str(line)),
                    };
                    reading()
                }
            },
        }
    }

    /// Gives up the exchange that is under way, if one is: the session is
    /// at rest afterwards. For the caller that could not write a command or
    /// pull a line.
    pub fn abandon(&mut self)
        ensures
            final(self)@ == old(self)@.at(PhaseView::Idle),
    {
        self.phase = Phase::Idle;
    }

    /// Takes note that the engine's output has ended. An exchange that was
    /// waiting for a line is given up with [`EngineError::Disconnected`];
    /// where none was, nothing changes and the answer is
    /// [`EngineError::OutOfTurn`].
    pub fn on_closed(&mut self) -> (step: Step)
        ensures
            final(self)@ == old(self)@.on_closed().0,
            step@ == old(self)@.on_closed().1,
    {
        match self.phase {
            Phase::Idle => finished(Reply::Failed(EngineError::OutOfTurn)),
            Phase::Pausing => finished(Reply::Failed(EngineError::OutOfTurn)),
            _ => {
                self.phase = Phase::Idle;
                finished(Reply::Failed(EngineError::Disconnected))
            },
        }
    }

    /// Takes note that the sleep which [`Stockfish::go_for`] asked for is
    /// over: the calculation is stopped, its position asked for, and its
    /// result read. Where no sleep was asked for, nothing changes and the
    /// answer is [`EngineError::OutOfTurn`].
    pub fn on_wake(&mut self) -> (step: Step)
        ensures
            final(self)@ == old(self)@.on_wake().0,
            step@ == old(self)@.on_wake().1,
    {
        match self.phase {
            Phase::Pausing => {
                self.phase = Phase::ScanFen { goal: Goal::Evaluate };
                Step {
                    commands: two(String::from_str("stop"), String::from_str("d")),
                    next: Next::Read,
                }
            },
            _ => finished(Reply::Failed(EngineError::OutOfTurn)),
        }
    }

    /// Hands `lines` to the session one by one, in order, for as long as
    /// it asks for a line, and reports how many it took, the commands it
    /// handed out on the way, and what it asked for last. The lines that
    /// were not taken belong to what comes after this exchange.
    pub fn replay(&mut self, lines: &Vec<String>) -> (outcome: Replay)
        ensures
            outcome.with(final(self)@) == old(self)@.run(lines.deep_view()),
    {
        let mut commands: Vec<String> = Vec::new();
        let mut i: usize = 0;
        assert(lines.deep_view().skip(0) =~= lines.deep_view());
        assert(commands.deep_view() =~= Seq::<Seq<char>>::empty());
        while i < lines.len()
            invariant
                i <= lines.len(),
                old(self)@.run(lines.deep_view()) == ({
                    let rest = self@.run(lines.deep_view().skip(i as int));
                    RunView {
                        session: rest.session,
                        consumed: (rest.consumed + i) as nat,
                        commands: commands.deep_view() + rest.commands,
                        next: rest.next,
                    }
                }),
            decreases lines.len() - i,
        {
            let ghost before = self@;
            let ghost sent = commands.deep_view();
            let ghost left = lines.deep_view().skip(i as int);
            assert(left[0] == lines[i as int]@);
            assert(left.skip(1) =~= lines.deep_view().skip(i + 1));
            let mut step = self.on_line(lines[i].as_str());
            let ghost handed = step.commands.deep_view();
            commands.append(&mut step.commands);
            assert(commands.deep_view() =~= sent + handed);
            i += 1;
            match step.next {
                Next::Read => {
                    assert(sent + (handed + self@.run(left.skip(1)).commands) =~= (sent + handed)
                        + self@.run(left.skip(1)).commands);
                },
                next => {
                    return Replay { consumed: i, commands, next };
                },
            }
        }
        assert(commands.deep_view() + Seq::<Seq<char>>::empty() =~= commands.deep_view());
        Replay { consumed: i, commands, next: Next::Read }
    }
}

} // verus!
