//! The engine's verdict on a position: its kind and its value.
use crate::decimal::{i32_text, signed_decimal};
use crate::error::{EngineError, Malformed};
use crate::text::same_text;
use vstd::prelude::*;
use vstd::string::*;

verus! {

/// The category of evaluation returned by the engine: a material balance in
/// centipawns, or a forced mate in a number of moves.
#[derive(Debug, Clone, Copy, PartialEq, Eq, Structural)]
pub enum EvalType {
    Centipawn,
    Mate,
}

impl EvalType {
    /// The protocol token of this kind: `cp` or `mate`.
    pub open spec fn descriptor(self) -> Seq<char> {
        match self {
            EvalType::Centipawn => "cp"@,
            EvalType::Mate => "mate"@,
        }
    }

    /// The kind that a protocol token names, if it names one.
    pub open spec fn of_descriptor(token: Seq<char>) -> Option<EvalType> {
        if token == "cp"@ {
            Some(EvalType::Centipawn)
        } else if token == "mate"@ {
            Some(EvalType::Mate)
        } else {
            None
        }
    }

    /// Creates an [`EvalType`] from its protocol token. The valid tokens are
    /// `"cp"`, for [`EvalType::Centipawn`], and `"mate"`, for
    /// [`EvalType::Mate`]. Any other text is refused as malformed.
    pub fn from_descriptor(str: &str) -> (kind: Result<EvalType, EngineError>)
        ensures
            kind == match Self::of_descriptor(str@) {
                Some(k) => Ok::<EvalType, EngineError>(k),
                None => Err(EngineError::Protocol(Malformed::UnknownEvalType)),
            },
    {
        if same_text(str, "cp") {
            Ok(EvalType::Centipawn)
        } else if same_text(str, "mate") {
            Ok(EvalType::Mate)
        } else {
            Err(EngineError::Protocol(Malformed::UnknownEvalType))
        }
    }

    /// The protocol token of this kind, as text.
    pub fn to_string(&self) -> (text: String)
        ensures
            text@ == self.descriptor(),
    {
        match self {
            EvalType::Centipawn => String::from_str("cp"),
            EvalType::Mate => String::from_str("mate"),
        }
    }

    /// The token of a kind names that kind again.
    pub proof fn lemma_descriptor_round_trip(self)
        ensures
            Self::of_descriptor(self.descriptor()) == Some(self),
    {
        reveal_strlit("cp");
        reveal_strlit("mate");
        assert("cp"@.len() == 2);
        assert("mate"@.len() == 4);
    }
}

/// Represents the evaluation returned from the engine: an [`EvalType`], a
/// numerical score and the depth of the search that gave it.
#[derive(Debug, Clone, Copy, PartialEq, Eq, Structural)]
pub struct EngineEval {
    eval_type: EvalType,
    value: i32,
    depth: u32,
}

impl EngineEval {
    /// The kind of this evaluation, for contracts.
    pub closed spec fn spec_eval_type(&self) -> EvalType {
        self.eval_type
    }

    /// The score of this evaluation, for contracts.
    pub closed spec fn spec_value(&self) -> i32 {
        self.value
    }

    /// The search depth of this evaluation, for contracts.
    pub closed spec fn spec_depth(&self) -> u32 {
        self.depth
    }

    /// How this evaluation is written: its kind's token, a space, and its
    /// value in base ten.
    pub open spec fn text(&self) -> Seq<char> {
        self.eval_type().descriptor() + seq![' '] + signed_decimal(self.value() as int)
    }

    /// Two evaluations with the same kind, value and depth are the same.
    pub proof fn lemma_same(self, other: EngineEval)
        requires
            self.eval_type() == other.eval_type(),
            self.value() == other.value(),
            self.depth() == other.depth(),
        ensures
            self == other,
    {
    }

    /// The evaluation of the given kind, value and depth, for contracts.
    pub closed spec fn spec_new(eval_type: EvalType, value: i32, depth: u32) -> EngineEval {
        EngineEval { eval_type, value, depth }
    }

    /// What `new` makes holds what it was given.
    pub proof fn lemma_new(eval_type: EvalType, value: i32, depth: u32)
        ensures
            Self::spec_new(eval_type, value, depth).eval_type() == eval_type,
            Self::spec_new(eval_type, value, depth).value() == value,
            Self::spec_new(eval_type, value, depth).depth() == depth,
    {
    }

    #[verifier::when_used_as_spec(spec_new)]
    pub fn new(eval_type: EvalType, value: i32, depth: u32) -> (eval: Self)
        ensures
            eval == Self::new(eval_type, value, depth),
            eval.eval_type() == eval_type,
            eval.value() == value,
            eval.depth() == depth,
    {
        Self { eval_type, value, depth }
    }

    /// Returns an [`EvalType`] representing what type of evaluation was
    /// returned from the engine: whether the evaluation is expressed in
    /// centipawns or as mate in a certain number of moves.
    #[must_use]
    #[verifier::when_used_as_spec(spec_eval_type)]
    pub fn eval_type(&self) -> (kind: EvalType)
        ensures
            kind == self.eval_type(),
    {
        self.eval_type
    }

    /// Returns the numerical value associated with the evaluation; this
    /// number is expressed in centipawns or in the number of moves in which
    /// mate may be forced (depending on [`EvalType`]).
    #[must_use]
    #[verifier::when_used_as_spec(spec_value)]
    pub fn value(&self) -> (value: i32)
        ensures
            value == self.value(),
    {
        self.value
    }

    /// Returns the depth that the engine had gone to when it gave this
    /// evaluation; zero where it did not say.
    #[verifier::when_used_as_spec(spec_depth)]
    pub fn depth(&self) -> (depth: u32)
        ensures
            depth == self.depth(),
    {
        self.depth
    }

    /// This evaluation as text, such as `cp 25` or `mate -3`.
    pub fn to_string(&self) -> (text: String)
        ensures
            text@ == self.text(),
    {
        let mut text = self.eval_type.to_string();
        proof {
            reveal_strlit(" ");
        }
        text.append(" ");
        assert(" "@ =~= seq![' ']);
        text.append(i32_text(self.value).as_str());
        text
    }
}

} // verus!
