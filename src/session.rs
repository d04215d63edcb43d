//! An operation in progress: the ledger calls it still has to make, in
//! order, and the record it leaves once all of them have succeeded.
//!
//! The caller runs the loop: it performs the pending call on the ledger and
//! hands the outcome to [`Session::advance`], which answers with what to do
//! next. The first failure ends the operation with that very error; no
//! later call is made and no record is left.

use vstd::prelude::*;
use crate::events::Event;
use crate::ledger::LedgerCall;

verus! {

/// The state of an operation in progress, as plain values.
pub struct SessionView {
    /// Every call of the operation, in the order they are made.
    pub plan: Seq<LedgerCall>,
    /// How many of them have succeeded.
    pub completed: nat,
    /// Whether the ledger has refused a call.
    pub failed: bool,
    /// The record left once every call has succeeded.
    pub event: Option<Event>,
}

/// An operation in which no call has been made yet.
pub open spec fn fresh(plan: Seq<LedgerCall>, event: Option<Event>) -> SessionView {
    SessionView { plan, completed: 0, failed: false, event }
}

/// What the caller is told to do next.
#[derive(Debug, PartialEq, Eq)]
pub enum Step<E> {
    /// Perform this call on the ledger and report how it went.
    Invoke(LedgerCall),
    /// The operation succeeded; hand the record, if any, to the event sink.
    Done(Option<Event>),
    /// The operation failed with the ledger's own error.
    Failed(E),
}

/// The state and the step that follow `outcome` of the pending call.
pub open spec fn after<E>(v: SessionView, outcome: Result<(), E>) -> (SessionView, Step<E>) {
    match outcome {
        Ok(()) => {
            let n = v.completed + 1;
            let w = SessionView { completed: n, ..v };
            if n < v.plan.len() {
                (w, Step::Invoke(v.plan[n as int]))
            } else {
                (w, Step::Done(v.event))
            }
        },
        Err(e) => (SessionView { failed: true, ..v }, Step::Failed(e)),
    }
}

/// An operation in progress.
pub struct Session {
    plan: Vec<LedgerCall>,
    completed: usize,
    failed: bool,
    event: Option<Event>,
}

impl View for Session {
    type V = SessionView;

    closed spec fn view(&self) -> SessionView {
        SessionView {
            plan: self.plan@,
            completed: self.completed as nat,
            failed: self.failed,
            event: self.event,
        }
    }
}

impl Session {
    /// The plan is not empty and no more calls succeeded than it holds.
    pub open spec fn wf(&self) -> bool {
        &&& self@.plan.len() > 0
        &&& self@.completed <= self@.plan.len()
    }

    /// A call is still pending.
    pub open spec fn is_running(&self) -> bool {
        &&& self.wf()
        &&& !self@.failed
        &&& self@.completed < self@.plan.len()
    }

    /// Starts an operation that makes the calls of `plan` in order and then
    /// leaves `event`.
    pub fn new(plan: Vec<LedgerCall>, event: Option<Event>) -> (s: Session)
        requires
            plan@.len() > 0,
        ensures
            s@ == fresh(plan@, event),
            s.wf(),
    {
        Session { plan, completed: 0, failed: false, event }
    }

    /// The call to perform next, or `None` once the operation has ended.
    pub fn pending(&self) -> (r: Option<LedgerCall>)
        requires
            self.wf(),
        ensures
            r == (if self.is_running() {
                Some(self@.plan[self@.completed as int])
            } else {
                None::<LedgerCall>
            }),
    {
        if !self.failed && self.completed < self.plan.len() {
            Some(self.plan[self.completed])
        } else {
            None
        }
    }

    /// Takes the outcome of the pending call and says what comes next.
    pub fn advance<E>(&mut self, outcome: Result<(), E>) -> (r: Step<E>)
        requires
            old(self).is_running(),
        ensures
            final(self).wf(),
            (final(self)@, r) == after(old(self)@, outcome),
    {
        match outcome {
            Ok(()) => {
                let len = self.plan.len();
                self.completed = self.completed + 1;
                if self.completed < len {
                    Step::Invoke(self.plan[self.completed])
                } else {
                    Step::Done(self.event)
                }
            },
            Err(e) => {
                self.failed = true;
                Step::Failed(e)
            },
        }
    }

    /// Every call of the operation, in order.
    pub fn plan(&self) -> (r: &Vec<LedgerCall>)
        ensures
            r@ == self@.plan,
    {
        &self.plan
    }

    /// How many calls have succeeded so far.
    pub fn completed(&self) -> (r: usize)
        ensures
            r == self@.completed,
    {
        self.completed
    }

    /// Whether the ledger has refused a call.
    pub fn has_failed(&self) -> (r: bool)
        ensures
            r == self@.failed,
    {
        self.failed
    }

    /// The record that the operation leaves on success.
    pub fn event(&self) -> (r: Option<Event>)
        ensures
            r == self@.event,
    {
        self.event
    }
}

} // verus!
