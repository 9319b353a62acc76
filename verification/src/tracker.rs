use vstd::prelude::*;

verus! {

use crate::command::{DriverCommand, Slot};
use crate::error::UsageViolation;

/// Tracks one binding point of the driver's global state machine: at any
/// moment the slot is either unbound or bound to exactly one nonzero
/// identifier.
///
/// Every transition returns the driver call that must accompany it, so the
/// local bookkeeping and the driver's actual state never drift apart: the
/// caller issues exactly the returned commands, in order.
///
/// The driver itself silently allows rebinding; the tracker adds a stricter
/// discipline and rejects a second bind as a usage violation, so that two
/// logical owners can never hold one slot at the same time.
pub struct BindingTracker {
    slot: Slot,
    bound: Option<u32>,
}

/// The slot contents after a bind: an already bound slot keeps its binding
/// (the attempt is rejected), an unbound slot takes the new identifier.
pub open spec fn bound_after_bind(bound: Option<u32>, id: u32) -> Option<u32> {
    if bound is Some {
        bound
    } else {
        Some(id)
    }
}

/// What a bind returns: the driver call to issue, or the violation that
/// rejected it.
pub open spec fn bind_result(slot: Slot, bound: Option<u32>, id: u32) -> Result<
    DriverCommand,
    UsageViolation,
> {
    if bound is Some {
        Err(UsageViolation::AlreadyBound)
    } else {
        Ok(DriverCommand::Bind { slot, id })
    }
}

/// The slot contents after an unbind: always unbound, whatever was there.
pub open spec fn bound_after_unbind(bound: Option<u32>) -> Option<u32> {
    None
}

/// What an unbind returns: the driver's bind-null call if the slot was bound,
/// nothing if it already was unbound (a safe no-op).
pub open spec fn unbind_result(slot: Slot, bound: Option<u32>) -> Option<DriverCommand> {
    if bound is Some {
        Some(DriverCommand::BindNull { slot })
    } else {
        None
    }
}

impl BindingTracker {
    /// Which binding point this tracker mirrors.
    pub closed spec fn spec_slot(self) -> Slot {
        self.slot
    }

    /// The identifier currently bound to the slot, if any.
    pub closed spec fn bound_id(self) -> Option<u32> {
        self.bound
    }

    /// A bound identifier is never the null identifier.
    pub open spec fn wf(self) -> bool {
        self.bound_id() matches Some(id) ==> id != 0
    }

    /// A fresh tracker for `slot`, in the unbound state.
    pub fn new(slot: Slot) -> (t: BindingTracker)
        ensures
            t.spec_slot() == slot,
            t.bound_id() is None,
            t.wf(),
    {
        BindingTracker { slot, bound: None }
    }

    /// The current binding, for callers that inspect the state.
    pub fn bound(&self) -> (r: Option<u32>)
        ensures
            r == self.bound_id(),
    {
        self.bound
    }

    /// Bind `id` to the slot and return the driver call to issue, or reject
    /// the attempt if the slot is already bound, leaving it untouched.
    pub fn bind(&mut self, id: u32) -> (r: Result<DriverCommand, UsageViolation>)
        requires
            id != 0,
            old(self).wf(),
        ensures
            final(self).wf(),
            final(self).spec_slot() == old(self).spec_slot(),
            final(self).bound_id() == bound_after_bind(old(self).bound_id(), id),
            r == bind_result(old(self).spec_slot(), old(self).bound_id(), id),
    {
        match self.bound {
            Some(_) => Err(UsageViolation::AlreadyBound),
            None => {
                self.bound = Some(id);
                Ok(DriverCommand::Bind { slot: self.slot, id })
            },
        }
    }

    /// Clear the slot.  Returns the driver's bind-null call when something was
    /// bound; when the slot already was unbound there is nothing to issue.
    pub fn unbind(&mut self) -> (r: Option<DriverCommand>)
        requires
            old(self).wf(),
        ensures
            final(self).wf(),
            final(self).spec_slot() == old(self).spec_slot(),
            final(self).bound_id() == bound_after_unbind(old(self).bound_id()),
            r == unbind_result(old(self).spec_slot(), old(self).bound_id()),
    {
        let r = match self.bound {
            Some(_) => Some(DriverCommand::BindNull { slot: self.slot }),
            None => None,
        };
        self.bound = None;
        r
    }
}

/// Binding a slot and then unbinding it leaves the slot unbound, and a
/// subsequent bind of the same identifier succeeds identically to the first:
/// same driver call, same resulting state.
pub proof fn lemma_bind_restartable(slot: Slot, bound: Option<u32>, id: u32)
    requires
        bind_result(slot, bound, id) is Ok,
    ensures
        ({
            let after_bind = bound_after_bind(bound, id);
            let after_unbind = bound_after_unbind(after_bind);
            &&& after_unbind is None
            &&& bind_result(slot, after_unbind, id) == bind_result(slot, bound, id)
            &&& bound_after_bind(after_unbind, id) == after_bind
        }),
{
}

/// A second bind on a slot that is already bound is rejected as a usage
/// violation and leaves the first binding in place: it never silently
/// replaces the active identifier.
pub proof fn lemma_double_bind_rejected(slot: Slot, first: u32, second: u32)
    ensures
        ({
            let after_first = bound_after_bind(None, first);
            &&& after_first == Some(first)
            &&& bind_result(slot, after_first, second) == Err::<DriverCommand, UsageViolation>(
                UsageViolation::AlreadyBound,
            )
            &&& bound_after_bind(after_first, second) == after_first
        }),
{
}

} // verus!
