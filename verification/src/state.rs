//! The mathematical model of a handle: what has been declared on it, where
//! its backtracking points lie, and what is known of its latest check.

use vstd::prelude::*;
use crate::engine::{outcome_of, CheckResult, Context, Decl};

verus! {

/// Where a handle stands between declarations and checks.
#[derive(Clone, Copy, Debug, PartialEq, Eq, Structural)]
pub enum Phase {
    /// Declarations have been made since the latest check, or none was run.
    Building,
    /// A check was run, with this outcome, and nothing was declared since.
    Checked(CheckResult),
}

/// One operation on a handle, as far as it bears on the state.
pub enum Op {
    /// Set the timeout, in milliseconds.
    SetTimeout(u32),
    /// Make a declaration.
    Declare(Decl),
    /// Create a backtracking point.
    Push,
    /// Backtrack to the latest point.
    Pop,
    /// Run a check, which the engine answers with this result code.
    Check(i32),
}

/// The state of a handle.
pub struct State {
    /// The context that the handle is bound to.
    pub ctx: Context,
    /// The declarations in force, oldest first.
    pub decls: Seq<Decl>,
    /// For each open backtracking point, oldest first, the number of
    /// declarations that were in force when it was created.
    pub marks: Seq<int>,
    /// The timeout in milliseconds, once one was set.
    pub timeout: Option<u32>,
    /// The phase.
    pub phase: Phase,
}

impl State {
    /// The state of a handle that was just created.
    pub open spec fn fresh(ctx: Context) -> State {
        State { ctx, decls: Seq::empty(), marks: Seq::empty(), timeout: None, phase: Phase::Building }
    }

    /// Backtracking points lie within the declarations, and a later point
    /// never lies before an earlier one.
    pub open spec fn wf(self) -> bool {
        &&& forall|i: int| 0 <= i < self.marks.len() ==> 0 <= #[trigger] self.marks[i] <= self.decls.len()
        &&& forall|i: int, j: int|
            0 <= i <= j < self.marks.len() ==> self.marks[i] <= self.marks[j]
    }

    /// The number of open backtracking points.
    pub open spec fn depth(self) -> nat {
        self.marks.len()
    }

    /// Whether the engine holds a model for this state: a check was run,
    /// nothing was declared since, and it did not find the problem
    /// unsatisfiable.
    pub open spec fn model_available(self) -> bool {
        match self.phase {
            Phase::Building => false,
            Phase::Checked(r) => r.has_model(),
        }
    }

    /// The state after a timeout was set. The phase is kept.
    pub open spec fn with_timeout(self, millis: u32) -> State {
        State { timeout: Some(millis), ..self }
    }

    /// The state after one more declaration. Any check result is stale.
    pub open spec fn declare(self, d: Decl) -> State {
        State { decls: self.decls.push(d), phase: Phase::Building, ..self }
    }

    /// The state after the declarations of `ds`, in order.
    pub open spec fn declare_all(self, ds: Seq<Decl>) -> State
        decreases ds.len(),
    {
        if ds.len() == 0 {
            self
        } else {
            self.declare_all(ds.drop_last()).declare(ds.last())
        }
    }

    /// The state after a backtracking point was created.
    pub open spec fn push(self) -> State {
        State { marks: self.marks.push(self.decls.len() as int), phase: Phase::Building, ..self }
    }

    /// The state after backtracking to the latest point: what was declared
    /// since that point is gone, and so is the point.
    pub open spec fn pop(self) -> State
        recommends
            self.depth() > 0,
    {
        State {
            decls: self.decls.subrange(0, self.marks.last()),
            marks: self.marks.drop_last(),
            phase: Phase::Building,
            ..self
        }
    }

    /// The state after `n` backtracking points were created in a row.
    pub open spec fn pushes(self, n: nat) -> State
        decreases n,
    {
        if n == 0 {
            self
        } else {
            self.pushes((n - 1) as nat).push()
        }
    }

    /// The state after `m` backtracks in a row.
    pub open spec fn pops(self, m: nat) -> State
        decreases m,
    {
        if m == 0 {
            self
        } else {
            self.pop().pops((m - 1) as nat)
        }
    }

    /// Whether `m` backtracks in a row are all permitted: each finds an open
    /// backtracking point.
    pub open spec fn pops_permitted(self, m: nat) -> bool
        decreases m,
    {
        m == 0 || (self.depth() > 0 && self.pop().pops_permitted((m - 1) as nat))
    }

    /// The state after a check that the engine answered with `code`. A code
    /// that stands for no outcome leaves no result behind.
    pub open spec fn checked(self, code: i32) -> State {
        State {
            phase: match outcome_of(code) {
                Some(r) => Phase::Checked(r),
                None => Phase::Building,
            },
            ..self
        }
    }

    /// Whether `op` is permitted in this state. Only backtracking is ever
    /// refused: it needs an open backtracking point.
    pub open spec fn permits(self, op: Op) -> bool {
        op is Pop ==> self.depth() > 0
    }

    /// The state after `op`.
    pub open spec fn step(self, op: Op) -> State {
        match op {
            Op::SetTimeout(millis) => self.with_timeout(millis),
            Op::Declare(d) => self.declare(d),
            Op::Push => self.push(),
            Op::Pop => self.pop(),
            Op::Check(code) => self.checked(code),
        }
    }

    /// The state after the operations of `ops`, in order.
    pub open spec fn run(self, ops: Seq<Op>) -> State
        decreases ops.len(),
    {
        if ops.len() == 0 {
            self
        } else {
            self.run(ops.drop_last()).step(ops.last())
        }
    }

    /// Whether each operation of `ops` is permitted in the state that the
    /// operations before it lead to.
    pub open spec fn permits_all(self, ops: Seq<Op>) -> bool
        decreases ops.len(),
    {
        ops.len() == 0 || (self.permits_all(ops.drop_last()) && self.run(ops.drop_last()).permits(
            ops.last(),
        ))
    }
}

/// The number of backtracking points that `ops` creates.
pub open spec fn pushes_in(ops: Seq<Op>) -> nat
    decreases ops.len(),
{
    if ops.len() == 0 {
        0
    } else if ops.last() is Push {
        pushes_in(ops.drop_last()) + 1
    } else {
        pushes_in(ops.drop_last())
    }
}

/// The number of backtracks in `ops`.
pub open spec fn pops_in(ops: Seq<Op>) -> nat
    decreases ops.len(),
{
    if ops.len() == 0 {
        0
    } else if ops.last() is Pop {
        pops_in(ops.drop_last()) + 1
    } else {
        pops_in(ops.drop_last())
    }
}

} // verus!
