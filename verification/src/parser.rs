//! Reading the engine's lines: which line is which, and what a window of
//! lines says about the position.
//!
//! A line is read as fields separated by single spaces (see
//! [`fields`](crate::text::fields)); a token is a field that is not empty.
use crate::decimal::{i32_of, parse_i32, parse_u32, u32_of};
use crate::engine_eval::{EngineEval, EvalType};
use crate::engine_output::{EngineOutput, EngineOutputView};
use crate::error::{EngineError, Malformed};
use crate::text::{
    contains_text, fields, find_field, has_char, has_text, head, head_of, position_of, same_text,
    split_fields, tail, tail_of,
};
use vstd::prelude::*;
use vstd::string::*;

verus! {

/// The token at position `i` of `parts`: the field there, unless there is
/// none or it is empty.
pub open spec fn token_at(parts: Seq<Seq<char>>, i: int) -> Option<Seq<char>> {
    if 0 <= i < parts.len() && parts[i].len() > 0 {
        Some(parts[i])
    } else {
        None
    }
}

/// The version that the engine's first line announces: its second token.
pub open spec fn version_of(first_line: Seq<char>) -> Option<Seq<char>> {
    token_at(fields(first_line), 1)
}

/// Whether `line` is the engine's acknowledgment of a readiness probe: the
/// text `readyok` and nothing else.
pub open spec fn is_ready_line(line: Seq<char>) -> bool {
    line == "readyok"@
}

/// Whether `line` is the line of a position dump that carries the position:
/// its first field is `Fen:`.
pub open spec fn is_fen_line(line: Seq<char>) -> bool {
    head(line) == "Fen:"@
}

/// The position that a `Fen:` line carries: everything after the first
/// space.
pub open spec fn fen_of(line: Seq<char>) -> Seq<char> {
    tail(line)
}

/// Whether `line` closes a position dump: it holds the text `Checkers`.
pub open spec fn ends_dump(line: Seq<char>) -> bool {
    contains_text(line, "Checkers"@)
}

/// Whether `line` is the terminal line of a calculation: its first field is
/// `bestmove`.
pub open spec fn is_terminal_line(line: Seq<char>) -> bool {
    head(line) == "bestmove"@
}

/// Whether the position `fen` has white to move: the letter `w` stands in
/// it. In Forsyth-Edwards notation that letter can only be the side-to-move
/// field.
pub open spec fn white_to_move(fen: Seq<char>) -> bool {
    fen.contains('w')
}

/// A score as the engine gave it, relative to the side to move, turned into
/// a score from white's side.
pub open spec fn normalized(raw: int, white: bool) -> int {
    if white {
        raw
    } else {
        -raw
    }
}

/// What the line `info` says of the score, for the given side to move.
///
/// The first field `score` decides: the field after it names the kind, the
/// one after that the value relative to the side to move.
pub open spec fn score_of(info: Seq<char>, white: bool) -> Result<(EvalType, i32), EngineError> {
    let parts = fields(info);
    let at = position_of(parts, "score"@) as int;
    if at + 2 >= parts.len() {
        Err(EngineError::Protocol(Malformed::MissingScore))
    } else {
        match EvalType::of_descriptor(parts[at + 1]) {
            None => Err(EngineError::Protocol(Malformed::UnknownEvalType)),
            Some(kind) => match i32_of(parts[at + 2]) {
                None => Err(EngineError::Protocol(Malformed::InvalidScore)),
                Some(raw) => if !white && raw == i32::MIN {
                    Err(EngineError::Protocol(Malformed::InvalidScore))
                } else {
                    Ok((kind, normalized(raw as int, white) as i32))
                },
            },
        }
    }
}

/// The depth that `line` states: the number in the field after its first
/// field `depth`, if there is such a field and it holds a `u32`.
pub open spec fn depth_on(line: Seq<char>) -> Option<u32> {
    let parts = fields(line);
    let at = position_of(parts, "depth"@) as int;
    if at + 1 < parts.len() {
        u32_of(parts[at + 1])
    } else {
        None
    }
}

/// The depth of a search: what the last line before the terminal line
/// states, else what the terminal line states, else zero.
pub open spec fn depth_of(info: Seq<char>, terminal: Seq<char>) -> u32 {
    match depth_on(info) {
        Some(depth) => depth,
        None => match depth_on(terminal) {
            Some(depth) => depth,
            None => 0,
        },
    }
}

/// The move that the terminal line names: its second token.
pub open spec fn best_move_of(terminal: Seq<char>) -> Option<Seq<char>> {
    token_at(fields(terminal), 1)
}

/// The reply that the terminal line expects: its fourth token, where the
/// third field is `ponder`.
pub open spec fn pondered_move_of(terminal: Seq<char>) -> Option<Seq<char>> {
    let parts = fields(terminal);
    if parts.len() > 2 && parts[2] == "ponder"@ {
        token_at(parts, 3)
    } else {
        None
    }
}

/// What a calculation concluded, read from the position `fen` that it was
/// made on, the last line `previous` that came before the terminal line (if
/// any came), and the terminal line.
///
/// Only `previous` is searched for the score, whatever came before it.
pub open spec fn output_of(fen: Seq<char>, previous: Option<Seq<char>>, terminal: Seq<char>)
    -> Result<EngineOutputView, EngineError> {
    match previous {
        None => Err(EngineError::Protocol(Malformed::MissingScore)),
        Some(info) => match score_of(info, white_to_move(fen)) {
            Err(e) => Err(e),
            Ok(score) => match best_move_of(terminal) {
                None => Err(EngineError::Protocol(Malformed::MissingBestMove)),
                Some(best) => Ok(
                    EngineOutputView {
                        eval: EngineEval::new(score.0, score.1, depth_of(info, terminal)),
                        best_move: best,
                        pondered_move: pondered_move_of(terminal),
                        depth: depth_of(info, terminal),
                    },
                ),
            },
        },
    }
}

/// The token at position `i` of `parts`, copied.
fn token(parts: &Vec<String>, i: usize) -> (found: Option<String>)
    ensures
        found.deep_view() == token_at(parts.deep_view(), i as int),
{
    proof {
        reveal_strlit("");
    }
    if i >= parts.len() {
        return None;
    }
    assert(parts.deep_view()[i as int] == parts[i as int]@);
    if same_text(parts[i].as_str(), "") {
        None
    } else {
        let found = parts[i].clone();
        assert(found@.len() > 0) by {
            if found@.len() == 0 {
                assert(found@ =~= ""@);
            }
        }
        Some(found)
    }
}

/// Reads the version that the engine announces in its first line.
pub fn parse_version(first_line: &str) -> (version: Option<String>)
    ensures
        version.deep_view() == version_of(first_line@),
{
    let parts = split_fields(first_line);
    token(&parts, 1)
}

/// Whether `line` acknowledges a readiness probe.
pub fn ready_line(line: &str) -> (ready: bool)
    ensures
        ready == is_ready_line(line@),
{
    same_text(line, "readyok")
}

/// The position that `line` carries, if it is the `Fen:` line of a dump.
pub fn fen_payload(line: &str) -> (fen: Option<String>)
    ensures
        fen.deep_view() == if is_fen_line(line@) {
            Some(fen_of(line@))
        } else {
            None
        },
{
    let first = head_of(line);
    if same_text(first.as_str(), "Fen:") {
        Some(tail_of(line))
    } else {
        None
    }
}

/// Whether `line` closes a position dump.
pub fn dump_end(line: &str) -> (last: bool)
    ensures
        last == ends_dump(line@),
{
    has_text(line, "Checkers")
}

/// Whether `line` is the terminal line of a calculation.
pub fn terminal_line(line: &str) -> (terminal: bool)
    ensures
        terminal == is_terminal_line(line@),
{
    let first = head_of(line);
    same_text(first.as_str(), "bestmove")
}

/// Whether white is to move in the position `fen`.
pub fn is_white_to_move(fen: &str) -> (white: bool)
    ensures
        white == white_to_move(fen@),
{
    has_char(fen, 'w')
}

/// Turns a score relative to the side to move into a score from white's
/// side: unchanged when white is to move, negated when black is. `None`
/// where the negation does not fit in an `i32`.
pub fn normalize(raw: i32, white: bool) -> (score: Option<i32>)
    ensures
        score == if !white && raw == i32::MIN {
            None
        } else {
            Some(normalized(raw as int, white) as i32)
        },
{
    if white {
        Some(raw)
    } else if raw == i32::MIN {
        None
    } else {
        Some(-raw)
    }
}

/// Reads the score from the line `info`, for the given side to move.
pub fn parse_score(info: &str, white: bool) -> (score: Result<(EvalType, i32), EngineError>)
    ensures
        score == score_of(info@, white),
{
    let parts = split_fields(info);
    let at = find_field(&parts, "score");
    if parts.len() < 3 || at >= parts.len() - 2 {
        return Err(EngineError::Protocol(Malformed::MissingScore));
    }
    assert(parts.deep_view()[at + 1] == parts[at + 1]@);
    assert(parts.deep_view()[at + 2] == parts[at + 2]@);
    let kind = match EvalType::from_descriptor(parts[at + 1].as_str()) {
        Ok(kind) => kind,
        Err(e) => {
            return Err(e);
        },
    };
    let raw = match parse_i32(parts[at + 2].as_str()) {
        Some(raw) => raw,
        None => {
            return Err(EngineError::Protocol(Malformed::InvalidScore));
        },
    };
    match normalize(raw, white) {
        Some(value) => Ok((kind, value)),
        None => Err(EngineError::Protocol(Malformed::InvalidScore)),
    }
}

/// Reads the depth that `line` states, if it states one.
pub fn parse_depth_on(line: &str) -> (depth: Option<u32>)
    ensures
        depth == depth_on(line@),
{
    let parts = split_fields(line);
    let at = find_field(&parts, "depth");
    if parts.len() < 2 || at >= parts.len() - 1 {
        return None;
    }
    assert(parts.deep_view()[at + 1] == parts[at + 1]@);
    parse_u32(parts[at + 1].as_str())
}

/// Reads the depth of a search from its last two lines.
pub fn parse_depth(info: &str, terminal: &str) -> (depth: u32)
    ensures
        depth == depth_of(info@, terminal@),
{
    match parse_depth_on(info) {
        Some(depth) => depth,
        None => match parse_depth_on(terminal) {
            Some(depth) => depth,
            None => 0,
        },
    }
}

/// Reads the pondered move from the terminal line, if it names one.
fn parse_pondered_move(parts: &Vec<String>) -> (pondered: Option<String>)
    ensures
        pondered.deep_view() == (if parts.deep_view().len() > 2 && parts.deep_view()[2]
            == "ponder"@ {
            token_at(parts.deep_view(), 3)
        } else {
            None
        }),
{
    if parts.len() > 2 && same_text(parts[2].as_str(), "ponder") {
        token(parts, 3)
    } else {
        None
    }
}

/// Turns the window of lines that closes a calculation into its result.
///
/// `fen` is the position that the calculation was made on, `previous` the
/// last line that came before the terminal line, if any came, and
/// `terminal` the terminal line. The score is looked for on `previous`
/// alone: a score on an earlier line is not used.
pub fn parse_engine_output(fen: &str, previous: &Option<String>, terminal: &str) -> (out: Result<
    EngineOutput,
    EngineError,
>)
    ensures
        match output_of(fen@, previous.deep_view(), terminal@) {
            Ok(view) => out is Ok && out->Ok_0@ == view,
            Err(e) => out == Err::<EngineOutput, EngineError>(e),
        },
{
    let info = match previous {
        Some(info) => info,
        None => {
            return Err(EngineError::Protocol(Malformed::MissingScore));
        },
    };
    let white = is_white_to_move(fen);
    let (kind, value) = match parse_score(info.as_str(), white) {
        Ok(score) => score,
        Err(e) => {
            return Err(e);
        },
    };
    let parts = split_fields(terminal);
    let best = match token(&parts, 1) {
        Some(best) => best,
        None => {
            return Err(EngineError::Protocol(Malformed::MissingBestMove));
        },
    };
    let pondered = parse_pondered_move(&parts);
    let depth = parse_depth(info.as_str(), terminal);
    Ok(EngineOutput::new(EngineEval::new(kind, value, depth), best, pondered, depth))
}

} // verus!
