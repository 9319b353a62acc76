use vstd::prelude::*;

verus! {

use crate::command::{delete_command, DriverCommand, Kind, Slot};
use crate::error::AllocationFailed;
use crate::role::Generator;
use crate::tracker::{bound_after_bind, bound_after_unbind, BindingTracker};

/// A second bind was attempted while a vertex array was already bound.
#[derive(Clone, Copy, Debug, PartialEq, Eq, Structural)]
pub struct BindVertexArrayError;

/// An attribute operation was attempted while no vertex array was bound.
#[derive(Clone, Copy, Debug, PartialEq, Eq, Structural)]
pub struct VertexNotBoundError;

/// An owning handle for one driver-side vertex array object.
pub struct VertexArray {
    id: u32,
}

impl VertexArray {
    /// The driver-assigned identifier this handle owns.
    pub closed spec fn spec_id(self) -> u32 {
        self.id
    }

    /// A handle never wraps the null identifier.
    pub open spec fn wf(self) -> bool {
        self.spec_id() != 0
    }

    /// Take ownership of a driver-assigned identifier.  The null identifier
    /// is the driver's failure sentinel and is rejected as an allocation
    /// failure rather than wrapped.
    pub fn from_raw(id: u32) -> (r: Result<VertexArray, AllocationFailed>)
        ensures
            r is Ok <==> id != 0,
            r matches Ok(va) ==> va.spec_id() == id && va.wf(),
    {
        if id == 0 {
            Err(AllocationFailed)
        } else {
            Ok(VertexArray { id })
        }
    }

    /// The raw identifier, for callers that address the driver directly.
    pub fn get_id(&self) -> (r: u32)
        ensures
            r == self.spec_id(),
    {
        self.id
    }

    /// The driver call that enables attribute `index` of this vertex array
    /// directly, bound or not.
    pub fn enable_attrib(&self, index: u32) -> (c: DriverCommand)
        ensures
            c == (DriverCommand::EnableArrayAttrib { array: self.spec_id(), index }),
    {
        DriverCommand::EnableArrayAttrib { array: self.id, index }
    }

    /// The driver call that disables attribute `index` of this vertex array
    /// directly, bound or not.
    pub fn disable_attrib(&self, index: u32) -> (c: DriverCommand)
        ensures
            c == (DriverCommand::DisableArrayAttrib { array: self.spec_id(), index }),
    {
        DriverCommand::DisableArrayAttrib { array: self.id, index }
    }

    /// Give up the handle.  `valid` is the driver's own report on whether the
    /// identifier still names a live vertex array object; only then is the
    /// deletion call issued, so an identifier is never deleted twice.
    pub fn destroy(self, valid: bool) -> (r: Option<DriverCommand>)
        ensures
            r == delete_command(Kind::VertexArray, self.spec_id(), valid),
    {
        if valid {
            Some(DriverCommand::Delete { kind: Kind::VertexArray, id: self.id })
        } else {
            None
        }
    }
}

impl Generator for VertexArray {
    type Object = VertexArray;

    open spec fn object_id(obj: &VertexArray) -> u32 {
        obj.spec_id()
    }

    fn new_object(id: u32) -> (r: VertexArray) {
        VertexArray { id }
    }
}

/// A scoped capability token: proof that one vertex array is currently bound.
///
/// Only [`VertexArrayState::bind`] creates one, and only
/// [`VertexArrayState::unbind`] consumes it, so the operations that need a
/// bound vertex array cannot be expressed while nothing is bound, and the
/// unbind call is produced exactly once per binding.
#[derive(Debug)]
pub struct VertexArrayBinding {
    id: u32,
}

impl VertexArrayBinding {
    /// The identifier of the vertex array this token proves bound.
    pub closed spec fn spec_id(self) -> u32 {
        self.id
    }

    /// The driver call that enables attribute `index` of the bound vertex
    /// array.
    pub fn enable_attrib(&mut self, index: u32) -> (c: DriverCommand)
        ensures
            final(self).spec_id() == old(self).spec_id(),
            c == (DriverCommand::EnableAttrib { index }),
    {
        DriverCommand::EnableAttrib { index }
    }

    /// The driver call that disables attribute `index` of the bound vertex
    /// array.
    pub fn disable_attrib(&self, index: u32) -> (c: DriverCommand)
        ensures
            c == (DriverCommand::DisableAttrib { index }),
    {
        DriverCommand::DisableAttrib { index }
    }
}

/// Mirrors the driver's vertex array binding point and hands out the binding
/// tokens.
pub struct VertexArrayState {
    tracker: BindingTracker,
}

impl VertexArrayState {
    /// The identifier currently bound to the vertex array slot, if any.
    pub closed spec fn bound_id(self) -> Option<u32> {
        self.tracker.bound_id()
    }

    /// The tracker mirrors the vertex array slot and never holds the null
    /// identifier.
    pub closed spec fn wf(self) -> bool {
        self.tracker.spec_slot() == Slot::VertexArray && self.tracker.wf()
    }

    /// A fresh state: nothing bound.
    pub fn new() -> (s: VertexArrayState)
        ensures
            s.wf(),
            s.bound_id() is None,
    {
        VertexArrayState { tracker: BindingTracker::new(Slot::VertexArray) }
    }

    /// Wrap one driver-generated identifier, rejecting the null identifier.
    pub fn gen_one(&self, id: u32) -> (r: Result<VertexArray, AllocationFailed>)
        ensures
            r is Ok <==> id != 0,
            r matches Ok(va) ==> va.spec_id() == id,
    {
        VertexArray::gen_one(id)
    }

    /// Wrap a batch of driver-generated identifiers, in order, rejecting the
    /// whole batch if any identifier is null.
    pub fn gen(&self, ids: Vec<u32>) -> (r: Result<Vec<VertexArray>, AllocationFailed>)
        ensures
            r is Ok <==> (forall|i: int| 0 <= i < ids@.len() ==> ids@[i] != 0),
            r matches Ok(vas) ==> {
                &&& vas@.len() == ids@.len()
                &&& forall|i: int| 0 <= i < ids@.len() ==> vas@[i].spec_id() == ids@[i]
            },
    {
        VertexArray::gen(ids)
    }

    /// The current binding, for callers that inspect the state.
    pub fn bound(&self) -> (r: Option<u32>)
        ensures
            r == self.bound_id(),
    {
        self.tracker.bound()
    }

    /// Bind `vertex_array` and return the binding token together with the
    /// driver call to issue.  A bind while another vertex array is bound is
    /// rejected and changes nothing: it never silently replaces the active
    /// binding.
    pub fn bind(&mut self, vertex_array: &VertexArray) -> (r: Result<
        (VertexArrayBinding, DriverCommand),
        BindVertexArrayError,
    >)
        requires
            old(self).wf(),
            vertex_array.wf(),
        ensures
            final(self).wf(),
            final(self).bound_id() == bound_after_bind(
                old(self).bound_id(),
                vertex_array.spec_id(),
            ),
            r is Ok <==> old(self).bound_id() is None,
            r matches Ok((binding, c)) ==> {
                &&& binding.spec_id() == vertex_array.spec_id()
                &&& c == (DriverCommand::Bind {
                    slot: Slot::VertexArray,
                    id: vertex_array.spec_id(),
                })
            },
    {
        match self.tracker.bind(vertex_array.get_id()) {
            Ok(c) => Ok((VertexArrayBinding { id: vertex_array.get_id() }, c)),
            Err(_) => Err(BindVertexArrayError),
        }
    }

    /// Consume the binding token and clear the slot, returning the single
    /// bind-null call to issue.  The token is taken by value, so each binding
    /// is released exactly once.
    pub fn unbind(&mut self, binding: VertexArrayBinding) -> (c: DriverCommand)
        requires
            old(self).wf(),
        ensures
            final(self).wf(),
            final(self).bound_id() == bound_after_unbind(old(self).bound_id()),
            c == (DriverCommand::BindNull { slot: Slot::VertexArray }),
    {
        let _ = self.tracker.unbind();
        DriverCommand::BindNull { slot: Slot::VertexArray }
    }

    /// The driver call that enables attribute `index` of the bound vertex
    /// array, or an error when nothing is bound.
    pub fn enable_attrib(&self, index: u32) -> (r: Result<DriverCommand, VertexNotBoundError>)
        ensures
            r is Ok <==> self.bound_id() is Some,
            r matches Ok(c) ==> c == (DriverCommand::EnableAttrib { index }),
    {
        match self.tracker.bound() {
            Some(_) => Ok(DriverCommand::EnableAttrib { index }),
            None => Err(VertexNotBoundError),
        }
    }

    /// The driver call that disables attribute `index` of the bound vertex
    /// array, or an error when nothing is bound.
    pub fn disable_attrib(&self, index: u32) -> (r: Result<DriverCommand, VertexNotBoundError>)
        ensures
            r is Ok <==> self.bound_id() is Some,
            r matches Ok(c) ==> c == (DriverCommand::DisableAttrib { index }),
    {
        match self.tracker.bound() {
            Some(_) => Ok(DriverCommand::DisableAttrib { index }),
            None => Err(VertexNotBoundError),
        }
    }
}

} // verus!
