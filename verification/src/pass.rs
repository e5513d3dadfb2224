//! Making a list of calls, and stopping at the first fault.
//!
//! A [`Pass`] holds the calls of one piece of work: a draw, or a whole frame.
//! It names the call that is due and takes in the error flag that the
//! backend showed after it.  A fault after a call that is checked ends the
//! pass: no later call is made.

use vstd::prelude::*;
use crate::backend::Step;
use crate::glutil::{check_error, fault_message, NO_ERROR};

verus! {

/// The calls of one piece of work and how far they have been made.
#[derive(Debug)]
pub struct Pass {
    /// The calls, in their order.
    pub steps: Vec<Step>,
    /// How many of them have been made and have passed.
    pub next: usize,
    /// Whether a call has shown a fault.
    pub failed: bool,
    /// What the fault was; empty unless there was one.
    pub message: String,
}

impl Pass {
    /// No more calls have passed than there are, and only a failed pass has
    /// a message.  A failed pass stands at the call that failed.
    pub open spec fn wf(self) -> bool {
        &&& self.next <= self.steps@.len()
        &&& self.failed ==> self.next < self.steps@.len()
        &&& !self.failed ==> self.message@.len() == 0
    }

    /// Whether a call is due.
    pub open spec fn running(self) -> bool {
        !self.failed && self.next < self.steps@.len()
    }

    /// Whether every call has been made and none has shown a fault.
    pub open spec fn completed(self) -> bool {
        !self.failed && self.next == self.steps@.len()
    }

    /// Whether the call that is due shows a fault by `error`.
    pub open spec fn faulty(self, error: u32) -> bool {
        self.steps@[self.next as int].checked && error != NO_ERROR
    }

    /// Whether `self` is what `before` becomes by the error flag `error`:
    /// one call further, or failed at the call that was due, with the
    /// message of the fault.
    pub open spec fn follows(self, before: Pass, error: u32) -> bool {
        &&& self.steps@ == before.steps@
        &&& if before.faulty(error) {
            &&& self.failed
            &&& self.next == before.next
            &&& Some(self.message@) == fault_message(error)
        } else {
            &&& !self.failed
            &&& self.next == before.next + 1
        }
    }

    /// A pass that is to make `steps`.
    pub fn new(steps: Vec<Step>) -> (p: Pass)
        ensures
            p.wf(),
            p.steps@ == steps@,
            p.next == 0,
            !p.failed,
    {
        Pass { steps, next: 0, failed: false, message: String::new() }
    }

    /// The call that is due, or `None` when the pass is over.
    pub fn pending(&self) -> (step: Option<Step>)
        requires
            self.wf(),
        ensures
            step == if self.running() {
                Some(self.steps@[self.next as int])
            } else {
                None
            },
    {
        if !self.failed && self.next < self.steps.len() {
            Some(self.steps[self.next])
        } else {
            None
        }
    }

    /// Takes in the error flag that the backend showed after the call that
    /// was due.  After a call that is not checked the flag is not read.
    pub fn advance(&mut self, error: u32)
        requires
            old(self).wf(),
            old(self).running(),
        ensures
            final(self).wf(),
            final(self).follows(*old(self), error),
    {
        let count = self.steps.len();
        assert(self.next < count);
        if self.steps[self.next].checked {
            match check_error(error) {
                Ok(()) => {
                    self.next = self.next + 1;
                },
                Err(message) => {
                    self.failed = true;
                    self.message = message;
                },
            }
        } else {
            self.next = self.next + 1;
        }
    }

    /// How the pass ended: well, or with the message of the fault.
    pub fn outcome(&self) -> (r: Result<(), String>)
        requires
            self.wf(),
            !self.running(),
        ensures
            self.completed() ==> r is Ok,
            self.failed ==> r is Err && r->Err_0@ == self.message@,
    {
        if self.failed {
            Err(self.message.clone())
        } else {
            Ok(())
        }
    }
}

/// Whether `states` are the states that a pass goes through while it takes
/// in `errors`, one after the other.
pub open spec fn is_pass_run(states: Seq<Pass>, errors: Seq<u32>) -> bool {
    &&& states.len() == errors.len() + 1
    &&& forall|i: int|
        #![trigger states[i]]
        0 <= i < errors.len() ==> {
            &&& states[i].wf()
            &&& states[i].running()
            &&& states[i + 1].follows(states[i], errors[i])
        }
}

/// While no call shows a fault, the pass makes its calls in their order:
/// after `j` answers it stands at call `j`.
pub proof fn lemma_pass_prefix(states: Seq<Pass>, errors: Seq<u32>, j: int)
    requires
        is_pass_run(states, errors),
        states[0].next == 0,
        !states[0].failed,
        0 <= j <= errors.len(),
        forall|i: int|
            0 <= i < j ==> !(states[0].steps@[i].checked && #[trigger] errors[i] != NO_ERROR),
    ensures
        states[j].steps@ == states[0].steps@,
        states[j].next == j,
        !states[j].failed,
    decreases j,
{
    if j > 0 {
        lemma_pass_prefix(states, errors, j - 1);
        assert(states[j].follows(states[j - 1], errors[j - 1]));
        assert(!(states[0].steps@[j - 1].checked && errors[j - 1] != NO_ERROR));
    }
}

/// A pass whose calls show no fault makes every call, each once and in its
/// order, and ends well.
pub proof fn lemma_clean_pass_completes(states: Seq<Pass>, errors: Seq<u32>)
    requires
        is_pass_run(states, errors),
        states[0].next == 0,
        !states[0].failed,
        errors.len() == states[0].steps@.len(),
        forall|i: int|
            0 <= i < errors.len() ==> !(states[0].steps@[i].checked && #[trigger] errors[i]
                != NO_ERROR),
    ensures
        states.last().completed(),
        forall|i: int|
            0 <= i < errors.len() ==> (#[trigger] states[i]).steps@[states[i].next as int]
                == states[0].steps@[i],
{
    lemma_pass_prefix(states, errors, errors.len() as int);
    assert forall|i: int| 0 <= i < errors.len() implies (#[trigger] states[i]).steps@[states[i].next as int]
        == states[0].steps@[i] by {
        lemma_pass_prefix(states, errors, i);
    }
}

/// A pass ends at the first call that shows a fault: it has failed with the
/// message of that fault, and the calls after it are never due.
pub proof fn lemma_first_fault_ends_pass(states: Seq<Pass>, errors: Seq<u32>)
    requires
        is_pass_run(states, errors),
        states[0].next == 0,
        !states[0].failed,
        errors.len() > 0,
        forall|i: int|
            0 <= i < errors.len() - 1 ==> !(states[0].steps@[i].checked && #[trigger] errors[i]
                != NO_ERROR),
        states[0].steps@[errors.len() - 1].checked,
        errors.last() != NO_ERROR,
    ensures
        states.last().failed,
        !states.last().running(),
        states.last().next == errors.len() - 1,
        Some(states.last().message@) == fault_message(errors.last()),
{
    let j = errors.len() - 1;
    lemma_pass_prefix(states, errors, j);
    assert(states[j + 1].follows(states[j], errors[j]));
}

} // verus!
