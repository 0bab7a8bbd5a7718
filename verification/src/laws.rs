//! What holds of every handle, proved over the model of its state.

use vstd::prelude::*;
use crate::engine::{Context, Decl, L_TRUE, L_UNDEF};
use crate::state::{pops_in, pushes_in, Op, Phase, State};

verus! {

/// Declaring keeps a state well formed, leaves its backtracking points alone
/// and makes any check result stale.
pub proof fn lemma_declare(s: State, d: Decl)
    requires
        s.wf(),
    ensures
        s.declare(d).wf(),
        s.declare(d).marks == s.marks,
        s.declare(d).depth() == s.depth(),
        s.declare(d).decls.len() == s.decls.len() + 1,
        s.declare(d).decls.subrange(0, s.decls.len() as int) == s.decls,
        !s.declare(d).model_available(),
{
    assert(s.declare(d).decls.subrange(0, s.decls.len() as int) =~= s.decls);
}

/// A run of declarations keeps a state well formed, leaves its backtracking
/// points alone and only adds to what was declared.
pub proof fn lemma_declare_all(s: State, ds: Seq<Decl>)
    requires
        s.wf(),
    ensures
        s.declare_all(ds).wf(),
        s.declare_all(ds).marks == s.marks,
        s.declare_all(ds).ctx == s.ctx,
        s.declare_all(ds).timeout == s.timeout,
        s.declare_all(ds).decls == s.decls + ds,
    decreases ds.len(),
{
    if ds.len() == 0 {
        assert(s.decls + ds =~= s.decls);
    } else {
        lemma_declare_all(s, ds.drop_last());
        lemma_declare(s.declare_all(ds.drop_last()), ds.last());
        assert((s.decls + ds.drop_last()).push(ds.last()) =~= s.decls + ds);
    }
}

/// Creating a backtracking point keeps a state well formed, adds one open
/// point and changes nothing that was declared.
pub proof fn lemma_push(s: State)
    requires
        s.wf(),
    ensures
        s.push().wf(),
        s.push().depth() == s.depth() + 1,
        s.push().decls == s.decls,
        !s.push().model_available(),
{
}

/// Backtracking keeps a state well formed, closes one point and keeps only
/// declarations that were in force before.
pub proof fn lemma_pop(s: State)
    requires
        s.wf(),
        s.depth() > 0,
    ensures
        s.pop().wf(),
        s.pop().depth() == s.depth() - 1,
        s.pop().decls.len() <= s.decls.len(),
        s.pop().decls == s.decls.subrange(0, s.pop().decls.len() as int),
        !s.pop().model_available(),
{
    let p = s.pop();
    assert(0 <= s.marks[s.marks.len() - 1] <= s.decls.len());
    assert forall|i: int| 0 <= i < p.marks.len() implies 0 <= #[trigger] p.marks[i]
        <= p.decls.len() by {
        assert(s.marks[i] <= s.marks[s.marks.len() - 1]);
    }
}

/// Backtracking right after creating a point gives back the state as it
/// was, but for the stale check result.
pub proof fn lemma_push_pop(s: State)
    requires
        s.wf(),
    ensures
        s.push().pop() == (State { phase: Phase::Building, ..s }),
{
    let r = s.push().pop();
    assert(r.decls =~= s.decls);
    assert(r.marks =~= s.marks);
}

/// Backtracking discards exactly what was declared since the point was
/// created: whatever the declarations in between, the state is what it was
/// before the point, but for the stale check result.
pub proof fn lemma_scope_is_discarded(s: State, ds: Seq<Decl>)
    requires
        s.wf(),
    ensures
        s.push().declare_all(ds).pop() == (State { phase: Phase::Building, ..s }),
{
    lemma_push(s);
    lemma_declare_all(s.push(), ds);
    let r = s.push().declare_all(ds).pop();
    assert(r.decls =~= s.decls);
    assert(r.marks =~= s.marks);
}

/// A run of `n` points created in a row opens `n` points and changes nothing
/// that was declared.
pub proof fn lemma_pushes(s: State, n: nat)
    requires
        s.wf(),
    ensures
        s.pushes(n).wf(),
        s.pushes(n).depth() == s.depth() + n,
        s.pushes(n).decls == s.decls,
    decreases n,
{
    if n > 0 {
        lemma_pushes(s, (n - 1) as nat);
        lemma_push(s.pushes((n - 1) as nat));
    }
}

/// A run of backtracks is permitted exactly when it is no longer than the
/// number of open points, and it then closes that many.
pub proof fn lemma_pops(s: State, m: nat)
    requires
        s.wf(),
    ensures
        s.pops_permitted(m) <==> m <= s.depth(),
        m <= s.depth() ==> s.pops(m).wf() && s.pops(m).depth() == s.depth() - m,
    decreases m,
{
    if m > 0 && s.depth() > 0 {
        lemma_pop(s);
        lemma_pops(s.pop(), (m - 1) as nat);
    }
}

/// After `n` points created in a row, any run of at most `n` backtracks is
/// permitted. On a handle that had no open point before, a run of `n + 1`
/// backtracks is not: its last one finds no point to return to.
pub proof fn lemma_balanced_backtracking(s: State, n: nat, m: nat)
    requires
        s.wf(),
        m <= n,
    ensures
        s.pushes(n).pops_permitted(m),
        s.pushes(n).pops(m).depth() == s.depth() + n - m,
        s.depth() == 0 ==> !s.pushes(n).pops_permitted(n + 1),
        s.depth() == 0 ==> s.pushes(n).pops(n).depth() == 0,
{
    lemma_pushes(s, n);
    lemma_pops(s.pushes(n), m);
    lemma_pops(s.pushes(n), n + 1);
    lemma_pops(s.pushes(n), n);
}

/// Every permitted operation keeps a state well formed.
pub proof fn lemma_step(s: State, op: Op)
    requires
        s.wf(),
        s.permits(op),
    ensures
        s.step(op).wf(),
        s.step(op).ctx == s.ctx,
        !(op is Check) && !(op is SetTimeout) ==> s.step(op).phase == Phase::Building,
        op is SetTimeout ==> s.step(op).phase == s.phase,
{
    match op {
        Op::SetTimeout(millis) => {},
        Op::Declare(d) => {
            lemma_declare(s, d);
        },
        Op::Push => {
            lemma_push(s);
        },
        Op::Pop => {
            lemma_pop(s);
        },
        Op::Check(code) => {},
    }
}

/// Every run of permitted operations keeps a state well formed and bound to
/// its context.
pub proof fn lemma_run(s: State, ops: Seq<Op>)
    requires
        s.wf(),
        s.permits_all(ops),
    ensures
        s.run(ops).wf(),
        s.run(ops).ctx == s.ctx,
    decreases ops.len(),
{
    if ops.len() > 0 {
        lemma_run(s, ops.drop_last());
        lemma_step(s.run(ops.drop_last()), ops.last());
    }
}

/// Over any run of permitted operations, the open backtracking points are
/// those created less those returned to. So the backtracks never outnumber
/// the points created, and one more backtrack is permitted exactly while
/// they are fewer.
pub proof fn lemma_depth_counts(s: State, ops: Seq<Op>)
    requires
        s.wf(),
        s.permits_all(ops),
    ensures
        s.run(ops).depth() + pops_in(ops) == s.depth() + pushes_in(ops),
        pops_in(ops) <= s.depth() + pushes_in(ops),
        s.run(ops).permits(Op::Pop) <==> pops_in(ops) < s.depth() + pushes_in(ops),
    decreases ops.len(),
{
    if ops.len() > 0 {
        let before = s.run(ops.drop_last());
        lemma_depth_counts(s, ops.drop_last());
        lemma_run(s, ops.drop_last());
        match ops.last() {
            Op::SetTimeout(millis) => {},
            Op::Declare(d) => {
                lemma_declare(before, d);
            },
            Op::Push => {
                lemma_push(before);
            },
            Op::Pop => {
                lemma_pop(before);
            },
            Op::Check(code) => {},
        }
    }
}

/// No model is available on a handle on which no check was run: neither
/// right after its creation nor after any operations other than checks.
pub proof fn lemma_no_model_before_check(ctx: Context, ops: Seq<Op>)
    requires
        forall|i: int| 0 <= i < ops.len() ==> !(#[trigger] ops[i] is Check),
    ensures
        State::fresh(ctx).wf(),
        !State::fresh(ctx).model_available(),
        State::fresh(ctx).run(ops).phase == Phase::Building,
        !State::fresh(ctx).run(ops).model_available(),
    decreases ops.len(),
{
    if ops.len() > 0 {
        let before = ops.drop_last();
        assert forall|i: int| 0 <= i < before.len() implies !(#[trigger] before[i] is Check) by {
            assert(before[i] == ops[i]);
        }
        lemma_no_model_before_check(ctx, before);
        assert(!(ops[ops.len() - 1] is Check));
    }
}

/// Whatever was declared or checked in between, no model is available once
/// anything was declared, or a backtracking point created or returned to,
/// after the latest check.
pub proof fn lemma_result_goes_stale(s: State, op: Op)
    requires
        op is Declare || op is Push || op is Pop,
    ensures
        !s.step(op).model_available(),
{
}

/// After a check a model is available exactly when the engine answered that
/// the problem is satisfiable or that it could not decide. The check changes
/// nothing but the phase.
pub proof fn lemma_model_after_check(s: State, code: i32)
    ensures
        s.checked(code).model_available() <==> (code == L_TRUE || code == L_UNDEF),
        s.checked(code).decls == s.decls,
        s.checked(code).marks == s.marks,
        s.checked(code).timeout == s.timeout,
        s.wf() ==> s.checked(code).wf(),
{
}

/// Setting a timeout changes neither what was declared nor what is known of
/// the latest check.
pub proof fn lemma_timeout_keeps_phase(s: State, millis: u32)
    ensures
        s.with_timeout(millis).phase == s.phase,
        s.with_timeout(millis).decls == s.decls,
        s.with_timeout(millis).marks == s.marks,
        s.with_timeout(millis).model_available() == s.model_available(),
        s.wf() ==> s.with_timeout(millis).wf(),
{
}

} // verus!
