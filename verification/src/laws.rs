//! What holds of the session whatever the engine prints: which lines an
//! exchange takes from the engine's output, and which it leaves.
//!
//! The laws speak of [`SessionView::run`], the model of handing the
//! engine's lines to the session one by one; [`Stockfish::replay`] and
//! [`Stockfish::on_line`] are proved to follow that model.
//!
//! [`Stockfish::replay`]: crate::stockfish::Stockfish::replay
//! [`Stockfish::on_line`]: crate::stockfish::Stockfish::on_line
use crate::command::{dump_text, is_ready_text, new_game_text};
use crate::parser::{
    ends_dump, fen_of, is_fen_line, is_ready_line, is_terminal_line, output_of, white_to_move,
};
use crate::session::{GoalView, NextView, PhaseView, ReplyView, RunView, SessionView, StepView};
use crate::text::{
    fields, head, head_len, join, lemma_fields_first, lemma_head_len_is, tail,
};
use vstd::prelude::*;
use vstd::string::*;

verus! {

/// Lines that leave the session as it is and asking for more are passed
/// over: the run goes on behind them as if it began there.
pub proof fn lemma_run_passes(s: SessionView, lines: Seq<Seq<char>>, k: int)
    requires
        0 <= k <= lines.len(),
        forall|j: int| 0 <= j < k ==> s.on_line(#[trigger] lines[j]) == (s, StepView::read()),
    ensures
        s.run(lines) == s.run(lines.skip(k)).after(k as nat),
    decreases k,
{
    if k == 0 {
        assert(lines.skip(0) =~= lines);
        assert(s.run(lines).after(0) =~= s.run(lines));
    } else {
        let rest = lines.skip(1);
        assert(s.on_line(lines[0]) == (s, StepView::read()));
        assert forall|j: int| 0 <= j < k - 1 implies s.on_line(#[trigger] rest[j]) == (
            s,
            StepView::read(),
        ) by {
            assert(rest[j] == lines[j + 1]);
        }
        lemma_run_passes(s, rest, k - 1);
        assert(rest.skip(k - 1) =~= lines.skip(k));
        let tail_run = s.run(lines.skip(k));
        assert(Seq::<Seq<char>>::empty() + tail_run.commands =~= tail_run.commands);
        assert(s.run(lines) =~= tail_run.after(k as nat));
    }
}

/// A run that meets, behind lines that it passes over, a line that ends
/// the exchange takes the lines up to that one and no more.
pub proof fn lemma_run_ends(s: SessionView, lines: Seq<Seq<char>>, k: int)
    requires
        0 <= k < lines.len(),
        forall|j: int| 0 <= j < k ==> s.on_line(#[trigger] lines[j]) == (s, StepView::read()),
        !(s.on_line(lines[k]).1.next is Read),
    ensures
        s.run(lines) == RunView::ended(
            s.on_line(lines[k]).0,
            (k + 1) as nat,
            s.on_line(lines[k]).1,
        ),
{
    lemma_run_passes(s, lines, k);
    assert(lines.skip(k)[0] == lines[k]);
}

/// A run that meets, behind lines that it passes over, a line that moves
/// the session on goes on from there.
pub proof fn lemma_run_moves(s: SessionView, lines: Seq<Seq<char>>, k: int)
    requires
        0 <= k < lines.len(),
        forall|j: int| 0 <= j < k ==> s.on_line(#[trigger] lines[j]) == (s, StepView::read()),
        s.on_line(lines[k]).1 == StepView::read(),
    ensures
        s.run(lines) == s.on_line(lines[k]).0.run(lines.skip(k + 1)).after((k + 1) as nat),
{
    lemma_run_passes(s, lines, k);
    let from = lines.skip(k);
    assert(from[0] == lines[k]);
    assert(from.skip(1) =~= lines.skip(k + 1));
    let rest = s.on_line(lines[k]).0.run(lines.skip(k + 1));
    assert(Seq::<Seq<char>>::empty() + rest.commands =~= rest.commands);
    assert(s.run(from) =~= rest.after(1));
}

/// The readiness barrier ends on the first line that reads `readyok`, and
/// not before. It takes that line and every line before it, and none after
/// it; the session is then at rest and knows the engine to be ready.
pub proof fn lemma_barrier(s: SessionView, new_game: bool, lines: Seq<Seq<char>>, k: int)
    requires
        s.phase == (PhaseView::AwaitReady { new_game }),
        0 <= k < lines.len(),
        is_ready_line(lines[k]),
        forall|j: int| 0 <= j < k ==> !is_ready_line(#[trigger] lines[j]),
    ensures
        s.run(lines) == (RunView {
            session: SessionView { ready: true, phase: PhaseView::Idle, ..s },
            consumed: (k + 1) as nat,
            commands: if new_game {
                seq![new_game_text()]
            } else {
                Seq::empty()
            },
            next: NextView::Done(ReplyView::Done),
        }),
{
    lemma_run_ends(s, lines, k);
}

/// While no line reads `readyok`, the readiness barrier takes every line
/// and asks for more.
pub proof fn lemma_barrier_waits(s: SessionView, new_game: bool, lines: Seq<Seq<char>>)
    requires
        s.phase == (PhaseView::AwaitReady { new_game }),
        forall|j: int| 0 <= j < lines.len() ==> !is_ready_line(#[trigger] lines[j]),
    ensures
        s.run(lines) == (RunView {
            session: s,
            consumed: lines.len(),
            commands: Seq::empty(),
            next: NextView::Read,
        }),
{
    lemma_run_passes(s, lines, lines.len() as int);
    assert(lines.skip(lines.len() as int) =~= Seq::<Seq<char>>::empty());
}

/// Two readiness barriers in a row each take the lines up to their own
/// `readyok` and nothing of what follows: after the second, exactly the
/// lines up to the second `readyok` are gone.
pub proof fn lemma_barrier_twice(s: SessionView, lines: Seq<Seq<char>>, first: int, second: int)
    requires
        s.phase is Idle,
        0 <= first < second < lines.len(),
        is_ready_line(lines[first]),
        is_ready_line(lines[second]),
        forall|j: int| 0 <= j < second && j != first ==> !is_ready_line(#[trigger] lines[j]),
    ensures
        ({
            let probe = seq![is_ready_text()];
            let waiting = PhaseView::AwaitReady { new_game: false };
            let one = s.begin(probe, NextView::Read, waiting).0.run(lines);
            let two = one.session.begin(probe, NextView::Read, waiting).0.run(
                lines.skip(one.consumed as int),
            );
            &&& one.next == NextView::Done(ReplyView::Done)
            &&& one.consumed == first + 1
            &&& two.next == NextView::Done(ReplyView::Done)
            &&& one.consumed + two.consumed == second + 1
            &&& two.session == (SessionView { ready: true, ..s })
        }),
{
    let probe = seq![is_ready_text()];
    let waiting = PhaseView::AwaitReady { new_game: false };
    let s1 = s.begin(probe, NextView::Read, waiting).0;
    lemma_barrier(s1, false, lines, first);
    let one = s1.run(lines);
    let s2 = one.session.begin(probe, NextView::Read, waiting).0;
    let rest = lines.skip(first + 1);
    assert(rest[second - first - 1] == lines[second]);
    assert forall|j: int| 0 <= j < second - first - 1 implies !is_ready_line(
        #[trigger] rest[j],
    ) by {
        assert(rest[j] == lines[j + first + 1]);
    }
    lemma_barrier(s2, false, rest, second - first - 1);
}

/// A fetch of the position takes the lines up to and with the first one
/// after the `Fen:` line that holds `Checkers`, and none after it; what it
/// reports is the text after `Fen:` on the first line that opens so,
/// whatever the lines before that one hold.
///
/// `at` is the first line that opens with `Fen:`, and `end` the first line
/// after it that holds `Checkers`.
pub proof fn lemma_fetch(s: SessionView, lines: Seq<Seq<char>>, at: int, end: int)
    requires
        s.phase == (PhaseView::ScanFen { goal: GoalView::Report }),
        0 <= at < end < lines.len(),
        is_fen_line(lines[at]),
        forall|j: int| 0 <= j < at ==> !is_fen_line(#[trigger] lines[j]),
        ends_dump(lines[end]),
        forall|j: int| at < j < end ==> !ends_dump(#[trigger] lines[j]),
    ensures
        s.run(lines) == (RunView {
            session: s.at(PhaseView::Idle),
            consumed: (end + 1) as nat,
            commands: Seq::empty(),
            next: NextView::Done(ReplyView::Text(fen_of(lines[at]))),
        }),
{
    lemma_dump(s, GoalView::Report, lines, at, end);
}

/// A position dump, whatever it is fetched for: the session passes over
/// the lines before the one that opens with `Fen:`, whatever they hold,
/// takes the position from it, discards the lines up to the one that holds
/// `Checkers`, and goes on from there as its goal has it.
pub proof fn lemma_dump(s: SessionView, goal: GoalView, lines: Seq<Seq<char>>, at: int, end: int)
    requires
        s.phase == (PhaseView::ScanFen { goal }),
        0 <= at < end < lines.len(),
        is_fen_line(lines[at]),
        forall|j: int| 0 <= j < at ==> !is_fen_line(#[trigger] lines[j]),
        ends_dump(lines[end]),
        forall|j: int| at < j < end ==> !ends_dump(#[trigger] lines[j]),
    ensures
        ({
            let after = s.after_dump(goal, fen_of(lines[at]));
            s.run(lines) == if goal is Evaluate {
                after.0.run(lines.skip(end + 1)).after((end + 1) as nat)
            } else {
                RunView::ended(after.0, (end + 1) as nat, after.1)
            }
        }),
{
    let fen = fen_of(lines[at]);
    let draining = s.at(PhaseView::DrainFen { goal, fen });
    lemma_run_moves(s, lines, at);
    let rest = lines.skip(at + 1);
    let stop = end - at - 1;
    assert(rest[stop] == lines[end]);
    assert forall|j: int| 0 <= j < stop implies draining.on_line(#[trigger] rest[j]) == (
        draining,
        StepView::read(),
    ) by {
        assert(rest[j] == lines[j + at + 1]);
    }
    let after = s.after_dump(goal, fen);
    assert(draining.on_line(rest[stop]) == draining.after_dump(goal, fen));
    assert(draining.after_dump(goal, fen).0 =~= after.0);
    assert(draining.after_dump(goal, fen).1 =~= after.1);
    if goal is Evaluate {
        lemma_run_moves(draining, rest, stop);
        assert(rest.skip(stop + 1) =~= lines.skip(end + 1));
        assert(s.run(lines) =~= after.0.run(lines.skip(end + 1)).after((end + 1) as nat));
    } else {
        lemma_run_ends(draining, rest, stop);
        assert(s.run(lines) =~= RunView::ended(after.0, (end + 1) as nat, after.1));
    }
}

/// While no line opens with `Fen:`, a fetch of the position takes every
/// line, whatever it holds, and asks for more: only the `Fen:` line ends
/// the scan.
pub proof fn lemma_scan_waits(s: SessionView, goal: GoalView, lines: Seq<Seq<char>>)
    requires
        s.phase == (PhaseView::ScanFen { goal }),
        forall|j: int| 0 <= j < lines.len() ==> !is_fen_line(#[trigger] lines[j]),
    ensures
        s.run(lines) == (RunView {
            session: s,
            consumed: lines.len(),
            commands: Seq::empty(),
            next: NextView::Read,
        }),
{
    lemma_run_passes(s, lines, lines.len() as int);
    assert(lines.skip(lines.len() as int) =~= Seq::<Seq<char>>::empty());
}

/// Two fetches in a row of a position that did not change report the same
/// position: where the engine prints the same dump twice, each fetch takes
/// one dump whole, and both report the text after `Fen:`.
pub proof fn lemma_fetch_twice(s: SessionView, lines: Seq<Seq<char>>, at: int, end: int)
    requires
        s.phase is Idle,
        0 <= at < end,
        lines.len() >= 2 * (end + 1),
        lines.subrange(end + 1, 2 * (end + 1)) == lines.take(end + 1),
        is_fen_line(lines[at]),
        forall|j: int| 0 <= j < at ==> !is_fen_line(#[trigger] lines[j]),
        ends_dump(lines[end]),
        forall|j: int| at < j < end ==> !ends_dump(#[trigger] lines[j]),
    ensures
        ({
            let ask = seq![dump_text()];
            let scanning = PhaseView::ScanFen { goal: GoalView::Report };
            let one = s.begin(ask, NextView::Read, scanning).0.run(lines);
            let two = one.session.begin(ask, NextView::Read, scanning).0.run(
                lines.skip(one.consumed as int),
            );
            &&& one.next == NextView::Done(ReplyView::Text(fen_of(lines[at])))
            &&& two.next == one.next
            &&& one.consumed == end + 1
            &&& two.consumed == end + 1
            &&& two.session == s
        }),
{
    let ask = seq![dump_text()];
    let scanning = PhaseView::ScanFen { goal: GoalView::Report };
    let s1 = s.begin(ask, NextView::Read, scanning).0;
    lemma_fetch(s1, lines, at, end);
    let one = s1.run(lines);
    let s2 = one.session.begin(ask, NextView::Read, scanning).0;
    let rest = lines.skip(end + 1);
    let again = lines.subrange(end + 1, 2 * (end + 1));
    assert forall|j: int| 0 <= j <= end implies #[trigger] rest[j] == lines[j] by {
        assert(rest[j] == again[j]);
        assert(lines.take(end + 1)[j] == lines[j]);
    }
    lemma_fetch(s2, rest, at, end);
    assert(s2.at(PhaseView::Idle) =~= s);
}

/// The line that the result of a calculation is read from beside the
/// terminal line: the one just before it, or, where the terminal line
/// comes first, the one that was kept before.
pub open spec fn buffered(previous: Option<Seq<char>>, lines: Seq<Seq<char>>, terminal: int)
    -> Option<Seq<char>> {
    if terminal == 0 {
        previous
    } else {
        Some(lines[terminal - 1])
    }
}

/// The wait for the result of a calculation ends on the first line that
/// opens with `bestmove`; it takes that line and every line before it, and
/// none after it. The result is read from that line and from the line just
/// before it, and from no earlier line, whatever those held.
pub proof fn lemma_result(
    s: SessionView,
    fen: Seq<char>,
    previous: Option<Seq<char>>,
    lines: Seq<Seq<char>>,
    terminal: int,
)
    requires
        s.phase == (PhaseView::AwaitBestMove { fen, previous }),
        0 <= terminal < lines.len(),
        is_terminal_line(lines[terminal]),
        forall|j: int| 0 <= j < terminal ==> !is_terminal_line(#[trigger] lines[j]),
    ensures
        s.run(lines) == (RunView {
            session: s.at(PhaseView::Idle),
            consumed: (terminal + 1) as nat,
            commands: Seq::empty(),
            next: NextView::Done(
                match output_of(fen, buffered(previous, lines, terminal), lines[terminal]) {
                    Ok(output) => ReplyView::Output(output),
                    Err(error) => ReplyView::Failed(error),
                },
            ),
        }),
    decreases terminal,
{
    if terminal == 0 {
        assert(s.run(lines) =~= RunView::ended(s.on_line(lines[0]).0, 1, s.on_line(lines[0]).1));
    } else {
        let kept = s.at(PhaseView::AwaitBestMove { fen, previous: Some(lines[0]) });
        let rest = lines.skip(1);
        assert(s.on_line(lines[0]) == (kept, StepView::read()));
        assert(rest[terminal - 1] == lines[terminal]);
        assert forall|j: int| 0 <= j < terminal - 1 implies !is_terminal_line(
            #[trigger] rest[j],
        ) by {
            assert(rest[j] == lines[j + 1]);
        }
        lemma_result(kept, fen, Some(lines[0]), rest, terminal - 1);
        if terminal > 1 {
            assert(rest[terminal - 2] == lines[terminal - 1]);
        }
        assert(buffered(Some(lines[0]), rest, terminal - 1) == buffered(
            previous,
            lines,
            terminal,
        ));
        let tail_run = kept.run(rest);
        assert(Seq::<Seq<char>>::empty() + tail_run.commands =~= tail_run.commands);
        assert(kept.at(PhaseView::Idle) =~= s.at(PhaseView::Idle));
        assert(s.run(lines) =~= tail_run.after(1));
    }
}

/// A calculation, from the dump of its position to its terminal line: the
/// session takes the lines up to and with the first one after the dump
/// that opens with `bestmove`, and none after it. The result is read from
/// the position of the dump, from that line, and from the line just before
/// it, if one came since the dump.
///
/// `at` and `end` are the lines of the dump that open with `Fen:` and hold
/// `Checkers`, as in [`lemma_dump`], and `terminal` is the terminal line.
pub proof fn lemma_calculation(
    s: SessionView,
    lines: Seq<Seq<char>>,
    at: int,
    end: int,
    terminal: int,
)
    requires
        s.phase == (PhaseView::ScanFen { goal: GoalView::Evaluate }),
        0 <= at < end < terminal < lines.len(),
        is_fen_line(lines[at]),
        forall|j: int| 0 <= j < at ==> !is_fen_line(#[trigger] lines[j]),
        ends_dump(lines[end]),
        forall|j: int| at < j < end ==> !ends_dump(#[trigger] lines[j]),
        is_terminal_line(lines[terminal]),
        forall|j: int| end < j < terminal ==> !is_terminal_line(#[trigger] lines[j]),
    ensures
        s.run(lines) == (RunView {
            session: s.at(PhaseView::Idle),
            consumed: (terminal + 1) as nat,
            commands: Seq::empty(),
            next: NextView::Done(
                match output_of(
                    fen_of(lines[at]),
                    if terminal == end + 1 {
                        None
                    } else {
                        Some(lines[terminal - 1])
                    },
                    lines[terminal],
                ) {
                    Ok(output) => ReplyView::Output(output),
                    Err(error) => ReplyView::Failed(error),
                },
            ),
        }),
{
    let fen = fen_of(lines[at]);
    lemma_dump(s, GoalView::Evaluate, lines, at, end);
    let awaiting = s.at(PhaseView::AwaitBestMove { fen, previous: None });
    let rest = lines.skip(end + 1);
    let t = terminal - end - 1;
    assert(rest[t] == lines[terminal]);
    assert forall|j: int| 0 <= j < t implies !is_terminal_line(#[trigger] rest[j]) by {
        assert(rest[j] == lines[j + end + 1]);
    }
    lemma_result(awaiting, fen, None, rest, t);
    if t > 0 {
        assert(rest[t - 1] == lines[terminal - 1]);
    }
    assert(awaiting.at(PhaseView::Idle) =~= s.at(PhaseView::Idle));
    assert(s.run(lines) =~= awaiting.run(rest).after((end + 1) as nat));
}

/// The lines among `lines` that are not empty, in order.
pub open spec fn rows_of(lines: Seq<Seq<char>>) -> Seq<Seq<char>>
    decreases lines.len(),
{
    if lines.len() == 0 {
        Seq::empty()
    } else if lines[0].len() == 0 {
        rows_of(lines.skip(1))
    } else {
        seq![lines[0]] + rows_of(lines.skip(1))
    }
}

/// While the picture of the board is collected, the session keeps the
/// lines that are not empty, whatever they hold, up to the line that opens
/// with `Fen:`.
pub proof fn lemma_board_rows(s: SessionView, rows: Seq<Seq<char>>, lines: Seq<Seq<char>>, at: int)
    requires
        s.phase == (PhaseView::ScanBoard { rows }),
        0 <= at < lines.len(),
        is_fen_line(lines[at]),
        forall|j: int| 0 <= j < at ==> !is_fen_line(#[trigger] lines[j]),
    ensures
        s.run(lines) == s.at(PhaseView::DrainBoard { rows: rows + rows_of(lines.take(at)) }).run(
            lines.skip(at + 1),
        ).after((at + 1) as nat),
    decreases at,
{
    let rest = lines.skip(1);
    if at == 0 {
        assert(lines.take(0) =~= Seq::<Seq<char>>::empty());
        assert(rows + rows_of(lines.take(0)) =~= rows);
        lemma_run_moves(s, lines, 0);
    } else {
        let first = lines[0];
        let moved = s.on_line(first).0;
        assert(s.on_line(first).1 == StepView::read());
        let kept = if first.len() == 0 {
            rows
        } else {
            rows.push(first)
        };
        assert(moved =~= s.at(PhaseView::ScanBoard { rows: kept }));
        assert(rest[at - 1] == lines[at]);
        assert forall|j: int| 0 <= j < at - 1 implies !is_fen_line(#[trigger] rest[j]) by {
            assert(rest[j] == lines[j + 1]);
        }
        lemma_board_rows(moved, kept, rest, at - 1);
        assert(lines.take(at)[0] == first);
        assert(lines.take(at).skip(1) =~= rest.take(at - 1));
        assert(kept + rows_of(rest.take(at - 1)) =~= rows + rows_of(lines.take(at)));
        assert(rest.skip(at) =~= lines.skip(at + 1));
        assert(moved.at(PhaseView::DrainBoard { rows: kept + rows_of(rest.take(at - 1)) }) =~= s.at(
            PhaseView::DrainBoard { rows: rows + rows_of(lines.take(at)) },
        ));
        let tail_run = moved.run(rest);
        assert(Seq::<Seq<char>>::empty() + tail_run.commands =~= tail_run.commands);
        assert(s.run(lines) =~= tail_run.after(1));
    }
}

/// While no line opens with `Fen:`, a fetch of the picture of the board
/// takes every line, keeps those that are not empty, and asks for more.
pub proof fn lemma_board_waits(s: SessionView, rows: Seq<Seq<char>>, lines: Seq<Seq<char>>)
    requires
        s.phase == (PhaseView::ScanBoard { rows }),
        forall|j: int| 0 <= j < lines.len() ==> !is_fen_line(#[trigger] lines[j]),
    ensures
        s.run(lines) == (RunView {
            session: s.at(PhaseView::ScanBoard { rows: rows + rows_of(lines) }),
            consumed: lines.len(),
            commands: Seq::empty(),
            next: NextView::Read,
        }),
    decreases lines.len(),
{
    if lines.len() == 0 {
        assert(rows + rows_of(lines) =~= rows);
        assert(s.at(PhaseView::ScanBoard { rows }) =~= s);
    } else {
        let first = lines[0];
        let rest = lines.skip(1);
        let moved = s.on_line(first).0;
        let kept = if first.len() == 0 {
            rows
        } else {
            rows.push(first)
        };
        assert(moved =~= s.at(PhaseView::ScanBoard { rows: kept }));
        assert forall|j: int| 0 <= j < rest.len() implies !is_fen_line(#[trigger] rest[j]) by {
            assert(rest[j] == lines[j + 1]);
        }
        lemma_board_waits(moved, kept, rest);
        assert(kept + rows_of(rest) =~= rows + rows_of(lines));
        assert(moved.at(PhaseView::ScanBoard { rows: kept + rows_of(rest) }) =~= s.at(
            PhaseView::ScanBoard { rows: rows + rows_of(lines) },
        ));
        let tail_run = moved.run(rest);
        assert(Seq::<Seq<char>>::empty() + tail_run.commands =~= tail_run.commands);
        assert(s.run(lines) =~= tail_run.after(1));
    }
}

/// A fetch of the picture of the board takes the lines of the dump up to
/// and with the one that holds `Checkers`, and none after it; what it
/// reports are the lines before the one that opens with `Fen:`, empty lines
/// left out, with a newline between neighbours.
pub proof fn lemma_board(s: SessionView, lines: Seq<Seq<char>>, at: int, end: int)
    requires
        s.phase == (PhaseView::ScanBoard { rows: Seq::empty() }),
        0 <= at < end < lines.len(),
        is_fen_line(lines[at]),
        forall|j: int| 0 <= j < at ==> !is_fen_line(#[trigger] lines[j]),
        ends_dump(lines[end]),
        forall|j: int| at < j < end ==> !ends_dump(#[trigger] lines[j]),
    ensures
        s.run(lines) == (RunView {
            session: s.at(PhaseView::Idle),
            consumed: (end + 1) as nat,
            commands: Seq::empty(),
            next: NextView::Done(ReplyView::Text(join(rows_of(lines.take(at)), seq!['\n']))),
        }),
{
    let rows = rows_of(lines.take(at));
    lemma_board_rows(s, Seq::empty(), lines, at);
    assert(Seq::<Seq<char>>::empty() + rows =~= rows);
    let draining = s.at(PhaseView::DrainBoard { rows });
    let rest = lines.skip(at + 1);
    let stop = end - at - 1;
    assert(rest[stop] == lines[end]);
    assert forall|j: int| 0 <= j < stop implies draining.on_line(#[trigger] rest[j]) == (
        draining,
        StepView::read(),
    ) by {
        assert(rest[j] == lines[j + at + 1]);
    }
    lemma_run_ends(draining, rest, stop);
    assert(draining.at(PhaseView::Idle) =~= s.at(PhaseView::Idle));
}

/// In a position whose second field is the letter `w`, as
/// Forsyth-Edwards notation writes it when white is to move, white is found
/// to move.
pub proof fn lemma_white_marker(fen: Seq<char>)
    requires
        fields(fen).len() >= 2,
        fields(fen)[1] == seq!['w'],
    ensures
        white_to_move(fen),
{
    lemma_fields_first(fen);
    let rest = tail(fen);
    lemma_fields_first(rest);
    assert(fields(fen).skip(1)[0] == fields(fen)[1]);
    assert(head(rest)[0] == 'w');
    assert(rest[0] == 'w');
    assert(fen[head_len(fen) as int + 1] == 'w');
}

/// The line that opens with `Fen:`, a space, and a position carries that
/// position, letter for letter.
pub proof fn lemma_fen_line(fen: Seq<char>)
    ensures
        is_fen_line("Fen:"@ + seq![' '] + fen),
        fen_of("Fen:"@ + seq![' '] + fen) == fen,
{
    reveal_strlit("Fen:");
    let line = "Fen:"@ + seq![' '] + fen;
    assert("Fen:"@.len() == 4);
    assert(line[4] == ' ');
    lemma_head_len_is(line, 4);
    assert(head(line) =~= "Fen:"@);
    assert(tail(line) =~= fen);
}

} // verus!
