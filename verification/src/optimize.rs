//! The optimization handle.

use vstd::prelude::*;
use crate::engine::{outcome_of, decode, Call, CheckResult, Context, Decl, Term, L_TRUE};
use crate::state::{Phase, State};
use crate::text::{rendered, rendering, string_from_utf8, FormatError};
use crate::weight::{decimal, weight_text};

verus! {

/// The book kept for one optimize object of the engine.
///
/// Every operation updates the book and names the request to forward to the
/// engine. A value exists from `new` to `release`, so the one reference taken
/// at creation is given back at most once and nothing is requested after it.
pub struct Optimize {
    ctx: Context,
    decls: Vec<Decl>,
    marks: Vec<usize>,
    timeout: Option<u32>,
    phase: Phase,
}

impl View for Optimize {
    type V = State;

    closed spec fn view(&self) -> State {
        State {
            ctx: self.ctx,
            decls: self.decls@,
            marks: self.marks@.map_values(|m: usize| m as int),
            timeout: self.timeout,
            phase: self.phase,
        }
    }
}

impl Optimize {
    /// The invariant of the book: its backtracking points lie within its
    /// declarations, in order. `new` establishes it and every operation keeps
    /// it.
    pub open spec fn wf(&self) -> bool {
        self@.wf()
    }

    /// Creates the book of a new handle bound to `ctx`, with the request that
    /// creates the engine's object and takes the one reference to it.
    pub fn new(ctx: &Context) -> (r: (Optimize, Call))
        ensures
            r.0.wf(),
            r.0@ == State::fresh(*ctx),
            r.1 == Call::Acquire,
    {
        let opt = Optimize {
            ctx: *ctx,
            decls: Vec::new(),
            marks: Vec::new(),
            timeout: None,
            phase: Phase::Building,
        };
        assert(opt@.marks =~= Seq::<int>::empty());
        (opt, Call::Acquire)
    }

    /// Ends the handle's life, with the request that gives the reference back.
    pub fn release(self) -> (call: Call)
        ensures
            call == Call::Release,
    {
        Call::Release
    }

    /// Sets the timeout, in milliseconds, of the checks that follow. The
    /// request writes the value under the name `timeout`.
    pub fn set_timeout(&mut self, timeout: u32) -> (call: Call)
        ensures
            final(self)@ == old(self)@.with_timeout(timeout),
            old(self).wf() ==> final(self).wf(),
            call.sets_param("timeout"@, timeout),
    {
        self.timeout = Some(timeout);
        Call::SetParam { name: "timeout".to_owned(), value: timeout }
    }

    /// Asserts a hard constraint.
    pub fn assert_hard(&mut self, term: &Term) -> (call: Call)
        ensures
            final(self)@ == old(self)@.declare(Decl::Hard(*term)),
            old(self).wf() ==> final(self).wf(),
            call == Call::Assert(*term),
    {
        self.decls.push(Decl::Hard(*term));
        self.phase = Phase::Building;
        Call::Assert(*term)
    }

    /// Asserts a soft constraint of the given weight. The weight crosses to
    /// the engine as its decimal text, and the constraint joins no group.
    pub fn add_soft(&mut self, term: &Term, weight: i64) -> (call: Call)
        ensures
            final(self)@ == old(self)@.declare(Decl::Soft(*term, weight)),
            old(self).wf() ==> final(self).wf(),
            call.asserts_soft(*term, decimal(weight as int)),
    {
        self.decls.push(Decl::Soft(*term, weight));
        self.phase = Phase::Building;
        Call::AssertSoft { term: *term, weight: weight_text(weight), group: None }
    }

    /// Declares an objective to maximize, beside those declared before.
    pub fn maximize(&mut self, term: &Term) -> (call: Call)
        ensures
            final(self)@ == old(self)@.declare(Decl::Maximize(*term)),
            old(self).wf() ==> final(self).wf(),
            call == Call::Maximize(*term),
    {
        self.decls.push(Decl::Maximize(*term));
        self.phase = Phase::Building;
        Call::Maximize(*term)
    }

    /// Declares an objective to minimize, beside those declared before.
    pub fn minimize(&mut self, term: &Term) -> (call: Call)
        ensures
            final(self)@ == old(self)@.declare(Decl::Minimize(*term)),
            old(self).wf() ==> final(self).wf(),
            call == Call::Minimize(*term),
    {
        self.decls.push(Decl::Minimize(*term));
        self.phase = Phase::Building;
        Call::Minimize(*term)
    }

    /// Creates a backtracking point.
    pub fn push(&mut self) -> (call: Call)
        ensures
            final(self)@ == old(self)@.push(),
            old(self).wf() ==> final(self).wf(),
            call == Call::Push,
    {
        let mark: usize = self.decls.len();
        self.marks.push(mark);
        self.phase = Phase::Building;
        assert(final(self)@.marks =~= old(self)@.marks.push(mark as int));
        Call::Push
    }

    /// Backtracks to the latest backtracking point. The caller owes that one
    /// is open: without one the engine's behaviour is undefined.
    pub fn pop(&mut self) -> (call: Call)
        requires
            old(self).wf(),
            old(self)@.depth() > 0,
        ensures
            final(self)@ == old(self)@.pop(),
            final(self).wf(),
            call == Call::Pop,
    {
        let mark: usize = self.marks.pop().unwrap();
        assert(old(self)@.marks[old(self)@.marks.len() - 1] == mark as int);
        self.decls.truncate(mark);
        self.phase = Phase::Building;
        assert(final(self)@.marks =~= old(self)@.marks.drop_last());
        assert(final(self)@.decls =~= old(self)@.decls.subrange(0, mark as int));
        Call::Pop
    }

    /// Records the result code of a check, and tells whether the engine
    /// found the problem satisfiable.
    pub fn check(&mut self, code: i32) -> (sat: bool)
        ensures
            final(self)@ == old(self)@.checked(code),
            old(self).wf() ==> final(self).wf(),
            sat == (outcome_of(code) == Some(CheckResult::Satisfiable)),
            sat == (code == L_TRUE),
    {
        match decode(code) {
            Some(r) => {
                self.phase = Phase::Checked(r);
            },
            None => {
                self.phase = Phase::Building;
            },
        }
        code == L_TRUE
    }

    /// Records the result code of a check, and gives its outcome. A model is
    /// to be fetched exactly where the outcome has one. The caller owes that
    /// the code is one of the three that the engine may return.
    pub fn check_get_model(&mut self, code: i32) -> (r: CheckResult)
        requires
            outcome_of(code) is Some,
        ensures
            final(self)@ == old(self)@.checked(code),
            old(self).wf() ==> final(self).wf(),
            outcome_of(code) == Some(r),
            final(self)@.phase == Phase::Checked(r),
            final(self)@.model_available() == r.has_model(),
    {
        let r: CheckResult = decode(code).unwrap();
        self.phase = Phase::Checked(r);
        r
    }

    /// The request that fetches the model of the latest check. The caller
    /// owes that a check was run, that nothing was declared since, and that
    /// it did not find the problem unsatisfiable.
    pub fn get_model(&self) -> (call: Call)
        requires
            self@.model_available(),
        ensures
            call == Call::GetModel,
    {
        Call::GetModel
    }

    /// Whether a model can be fetched.
    pub fn model_available(&self) -> (b: bool)
        ensures
            b == self@.model_available(),
    {
        match self.phase {
            Phase::Building => false,
            Phase::Checked(r) => r.has_model(),
        }
    }

    /// The number of open backtracking points.
    pub fn depth(&self) -> (d: usize)
        ensures
            d == self@.depth(),
    {
        self.marks.len()
    }

    /// The phase.
    pub fn phase(&self) -> (p: Phase)
        ensures
            p == self@.phase,
    {
        self.phase
    }

    /// The timeout in milliseconds, once one was set.
    pub fn timeout(&self) -> (t: Option<u32>)
        ensures
            t == self@.timeout,
    {
        self.timeout
    }

    /// The context that the handle is bound to.
    pub fn context(&self) -> (c: Context)
        ensures
            c == self@.ctx,
    {
        self.ctx
    }

    /// The declarations in force, oldest first.
    pub fn declarations(&self) -> (ds: &Vec<Decl>)
        ensures
            ds@ == self@.decls,
    {
        &self.decls
    }

    /// Decodes the engine's rendering of the handle's state. `raw` holds the
    /// bytes of the engine's string up to its terminator, or `None` where the
    /// engine yielded none. Without bytes, or with bytes that are not UTF-8
    /// text, the rendering fails.
    pub fn render(&self, raw: Option<Vec<u8>>) -> (r: Result<String, FormatError>)
        ensures
            rendered(r) == rendering(raw),
    {
        match raw {
            None => Err(FormatError::NoText),
            Some(bytes) => match string_from_utf8(bytes) {
                Some(s) => Ok(s),
                None => Err(FormatError::NotText),
            },
        }
    }
}

} // verus!
