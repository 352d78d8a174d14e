//! The complete answer of the engine to one request to calculate.
use crate::engine_eval::EngineEval;
use vstd::prelude::*;
use vstd::string::*;

verus! {

/// What an [`EngineOutput`] holds, with its texts as sequences of
/// characters.
pub struct EngineOutputView {
    pub eval: EngineEval,
    pub best_move: Seq<char>,
    pub pondered_move: Option<Seq<char>>,
    pub depth: u32,
}

/// Represents the total output from the engine in regards to one specific
/// position: the engine's evaluation of the position, the move it chose, the
/// reply it expects, and the depth it searched to.
#[derive(Debug, Clone, PartialEq, Eq)]
pub struct EngineOutput {
    eval: EngineEval,
    best_move: String,
    pondered_move: Option<String>,
    depth: u32,
}

impl View for EngineOutput {
    type V = EngineOutputView;

    closed spec fn view(&self) -> EngineOutputView {
        EngineOutputView {
            eval: self.eval,
            best_move: self.best_move@,
            pondered_move: self.pondered_move.deep_view(),
            depth: self.depth,
        }
    }
}

impl EngineOutputView {
    /// How the output is written: its evaluation, an underscore, and its
    /// best move.
    pub open spec fn text(self) -> Seq<char> {
        self.eval.text() + seq!['_'] + self.best_move
    }
}

impl EngineOutput {
    #[must_use]
    pub fn new(eval: EngineEval, best_move: String, pondered_move: Option<String>, depth: u32) -> (out:
        Self)
        ensures
            out@ == (EngineOutputView {
                eval,
                best_move: best_move@,
                pondered_move: pondered_move.deep_view(),
                depth,
            }),
    {
        Self { eval, best_move, pondered_move, depth }
    }

    /// Returns [`EngineEval`], a struct representing the engine's
    /// evaluation of the position.
    #[must_use]
    pub fn eval(&self) -> (eval: EngineEval)
        ensures
            eval == self@.eval,
    {
        self.eval
    }

    /// Returns the engine's best move, in long algebraic notation (e.g.,
    /// `"e2e4"`).
    #[must_use]
    pub fn best_move(&self) -> (best: &String)
        ensures
            best@ == self@.best_move,
    {
        &self.best_move
    }

    /// Returns the move that the engine expects in reply, in long algebraic
    /// notation (e.g., `"e7e5"`); [`None`] if the engine named none.
    #[must_use]
    pub fn pondered_move(&self) -> (pondered: &Option<String>)
        ensures
            pondered.deep_view() == self@.pondered_move,
    {
        &self.pondered_move
    }

    /// Returns the depth that the engine had gone to when it returned this
    /// output; zero where it did not say.
    #[must_use]
    pub fn depth(&self) -> (depth: u32)
        ensures
            depth == self@.depth,
    {
        self.depth
    }

    /// This output as text, such as `cp 25_e2e4`.
    pub fn to_string(&self) -> (text: String)
        ensures
            text@ == self@.text(),
    {
        let mut text = self.eval.to_string();
        proof {
            reveal_strlit("_");
        }
        text.append("_");
        assert("_"@ =~= seq!['_']);
        text.append(self.best_move.as_str());
        text
    }
}

} // verus!
