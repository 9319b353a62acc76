use vstd::prelude::*;

verus! {

use crate::command::{DriverCommand, Slot};
use crate::program::Program;
use crate::tracker::{bound_after_bind, bound_after_unbind, unbind_result, BindingTracker};

/// A program was made current while another program was already in use.
#[derive(Clone, Copy, Debug, PartialEq, Eq, Structural)]
pub struct UseProgramError;

/// Mirrors the driver's active-program binding point.
///
/// The active program is a binding slot like any other; making a program
/// current while another one is in use is rejected, and releasing the slot
/// issues the driver's use-null call.
pub struct StateProgram {
    tracker: BindingTracker,
}

impl StateProgram {
    /// The identifier of the program currently in use, if any.
    pub closed spec fn used_id(self) -> Option<u32> {
        self.tracker.bound_id()
    }

    /// The tracker mirrors the active-program slot and never holds the null
    /// identifier.
    pub closed spec fn wf(self) -> bool {
        self.tracker.spec_slot() == Slot::ActiveProgram && self.tracker.wf()
    }

    /// A fresh state: no program in use.
    pub fn new() -> (s: StateProgram)
        ensures
            s.wf(),
            s.used_id() is None,
    {
        StateProgram { tracker: BindingTracker::new(Slot::ActiveProgram) }
    }

    /// The program currently in use, for callers that inspect the state.
    pub fn used(&self) -> (r: Option<u32>)
        ensures
            r == self.used_id(),
    {
        self.tracker.bound()
    }

    /// Make `program` the active program and return the driver call to issue.
    /// An attempt while another program is in use is rejected and changes
    /// nothing.
    pub fn using(&mut self, program: &Program) -> (r: Result<DriverCommand, UseProgramError>)
        requires
            old(self).wf(),
            program.wf(),
        ensures
            final(self).wf(),
            final(self).used_id() == bound_after_bind(old(self).used_id(), program.spec_id()),
            r is Ok <==> old(self).used_id() is None,
            r matches Ok(c) ==> c == (DriverCommand::Bind {
                slot: Slot::ActiveProgram,
                id: program.spec_id(),
            }),
    {
        match self.tracker.bind(program.get_id()) {
            Ok(c) => Ok(c),
            Err(_) => Err(UseProgramError),
        }
    }

    /// Release the active program.  Returns the driver's use-null call when a
    /// program was in use; when none was, there is nothing to issue.
    pub fn unuse(&mut self) -> (r: Option<DriverCommand>)
        requires
            old(self).wf(),
        ensures
            final(self).wf(),
            final(self).used_id() == bound_after_unbind(old(self).used_id()),
            r == unbind_result(Slot::ActiveProgram, old(self).used_id()),
    {
        self.tracker.unbind()
    }
}

} // verus!
