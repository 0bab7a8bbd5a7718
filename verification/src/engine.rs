//! The vocabulary shared with the engine: the requests that the embedding
//! program forwards to it, and the readings of what it answers.

use vstd::prelude::*;

verus! {

/// The code with which the engine reports that no assignment exists.
pub const L_FALSE: i32 = -1;

/// The code with which the engine reports that it could not decide.
pub const L_UNDEF: i32 = 0;

/// The code with which the engine reports that an assignment exists.
pub const L_TRUE: i32 = 1;

/// The engine-wide context that handles and terms are bound to. The value is
/// a token for it; whoever holds the context keeps it alive.
#[derive(Clone, Copy, Debug, PartialEq, Eq, Structural)]
pub struct Context {
    pub id: u64,
}

/// An expression term, built and owned elsewhere; the value is a token for it.
#[derive(Clone, Copy, Debug, PartialEq, Eq, Structural)]
pub struct Term {
    pub id: u64,
}

/// One declaration made on a handle.
#[derive(Clone, Copy, Debug, PartialEq, Eq, Structural)]
pub enum Decl {
    /// A constraint that every accepted solution satisfies.
    Hard(Term),
    /// A constraint whose violation costs the given weight.
    Soft(Term, i64),
    /// An objective to make as large as possible.
    Maximize(Term),
    /// An objective to make as small as possible.
    Minimize(Term),
}

/// The outcome of a check.
#[derive(Clone, Copy, Debug, PartialEq, Eq, Structural)]
pub enum CheckResult {
    /// The engine found an assignment; a model is available.
    Satisfiable,
    /// No assignment exists; there is no model.
    Unsatisfiable,
    /// The engine could not decide; a best-effort model is available.
    Unknown,
}

/// One request to the engine. Each is carried out as a whole while the
/// process-wide engine lock is held, and the lock is given up before the next.
#[derive(Debug, PartialEq, Eq)]
pub enum Call {
    /// Create the engine's optimize object and take one reference to it.
    Acquire,
    /// Give that one reference back.
    Release,
    /// Build a parameter set that holds one unsigned value under `name`, and
    /// apply it to the handle.
    SetParam { name: String, value: u32 },
    /// Assert a hard constraint.
    Assert(Term),
    /// Assert a soft constraint. `weight` is the weight's decimal text;
    /// `group` names the group of soft constraints, if any.
    AssertSoft { term: Term, weight: Vec<u8>, group: Option<String> },
    /// Declare an objective to maximize.
    Maximize(Term),
    /// Declare an objective to minimize.
    Minimize(Term),
    /// Create a backtracking point.
    Push,
    /// Backtrack to the latest backtracking point.
    Pop,
    /// Fetch the model of the latest check.
    GetModel,
}

impl Call {
    /// Whether this request writes `value` under `name` into a parameter set
    /// and applies the set.
    pub open spec fn sets_param(self, name: Seq<char>, value: u32) -> bool {
        self matches Call::SetParam { name: n, value: v } && n@ == name && v == value
    }

    /// Whether this request asserts `term` as a soft constraint under the
    /// weight text `weight`, in no group.
    pub open spec fn asserts_soft(self, term: Term, weight: Seq<u8>) -> bool {
        self matches Call::AssertSoft { term: t, weight: w, group: g } && t == term && w@ == weight
            && g is None
    }
}

/// The reading of a result code: each of the three codes stands for one
/// outcome, and no other code stands for any.
pub open spec fn outcome_of(code: i32) -> Option<CheckResult> {
    if code == L_TRUE {
        Some(CheckResult::Satisfiable)
    } else if code == L_FALSE {
        Some(CheckResult::Unsatisfiable)
    } else if code == L_UNDEF {
        Some(CheckResult::Unknown)
    } else {
        None
    }
}

/// The code that stands for an outcome.
pub open spec fn code_of(r: CheckResult) -> i32 {
    match r {
        CheckResult::Satisfiable => L_TRUE,
        CheckResult::Unsatisfiable => L_FALSE,
        CheckResult::Unknown => L_UNDEF,
    }
}

/// Reads a result code. `None` marks a code that the engine is presumed never
/// to return.
pub fn decode(code: i32) -> (r: Option<CheckResult>)
    ensures
        r == outcome_of(code),
{
    if code == L_TRUE {
        Some(CheckResult::Satisfiable)
    } else if code == L_FALSE {
        Some(CheckResult::Unsatisfiable)
    } else if code == L_UNDEF {
        Some(CheckResult::Unknown)
    } else {
        None
    }
}

impl CheckResult {
    /// Whether the engine holds a model after a check with this outcome.
    pub open spec fn spec_has_model(self) -> bool {
        self != CheckResult::Unsatisfiable
    }

    /// Whether the engine holds a model after a check with this outcome.
    #[verifier::when_used_as_spec(spec_has_model)]
    pub fn has_model(self) -> (b: bool)
        ensures
            b == self.spec_has_model(),
    {
        match self {
            CheckResult::Unsatisfiable => false,
            _ => true,
        }
    }
}

/// Codes and outcomes correspond one to one.
pub proof fn lemma_codes_one_to_one(code: i32, r: CheckResult)
    ensures
        outcome_of(code_of(r)) == Some(r),
        outcome_of(code) == Some(r) <==> code == code_of(r),
        outcome_of(code) is Some <==> (code == L_TRUE || code == L_FALSE || code == L_UNDEF),
{
}

} // verus!
