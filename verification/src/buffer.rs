use vstd::prelude::*;

verus! {

use crate::command::{delete_command, DriverCommand, Kind};
use crate::error::AllocationFailed;
use crate::role::Generator;

/// An owning handle for one driver-side buffer object.
///
/// The wrapped identifier is never the null identifier, and the handle is the
/// sole owner of the deletion duty for it: `destroy` consumes the handle, so
/// the deletion call can be produced at most once.
pub struct Buffer {
    id: u32,
}

impl Buffer {
    /// The driver-assigned identifier this handle owns.
    pub closed spec fn spec_id(self) -> u32 {
        self.id
    }

    /// A handle never wraps the null identifier.
    pub open spec fn wf(self) -> bool {
        self.spec_id() != 0
    }

    /// Take ownership of a driver-assigned identifier.  The null identifier
    /// is the driver's failure sentinel and is rejected as an allocation
    /// failure rather than wrapped.
    pub fn from_raw(id: u32) -> (r: Result<Buffer, AllocationFailed>)
        ensures
            r is Ok <==> id != 0,
            r matches Ok(b) ==> b.spec_id() == id && b.wf(),
    {
        if id == 0 {
            Err(AllocationFailed)
        } else {
            Ok(Buffer { id })
        }
    }

    /// The raw identifier, for callers that address the driver directly.
    pub fn get_id(&self) -> (r: u32)
        ensures
            r == self.spec_id(),
    {
        self.id
    }

    /// Give up the handle.  `valid` is the driver's own report on whether the
    /// identifier still names a live buffer object; only then is the deletion
    /// call issued, so an identifier is never deleted twice.
    pub fn destroy(self, valid: bool) -> (r: Option<DriverCommand>)
        ensures
            r == delete_command(Kind::Buffer, self.spec_id(), valid),
    {
        if valid {
            Some(DriverCommand::Delete { kind: Kind::Buffer, id: self.id })
        } else {
            None
        }
    }
}

impl Generator for Buffer {
    type Object = Buffer;

    open spec fn object_id(obj: &Buffer) -> u32 {
        obj.spec_id()
    }

    fn new_object(id: u32) -> (r: Buffer) {
        Buffer { id }
    }
}

} // verus!
