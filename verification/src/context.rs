use vstd::prelude::*;

verus! {

use crate::buffer::Buffer;
use crate::command::{DriverCommand, Slot};
use crate::error::{AllocationFailed, UsageViolation};
use crate::role::Generator;
use crate::state_program::StateProgram;
use crate::tracker::{bound_after_bind, bound_after_unbind, unbind_result, BindingTracker};
use crate::vertex_array::VertexArrayState;

/// A buffer was bound to a target that already had a buffer bound.
#[derive(Clone, Copy, Debug, PartialEq, Eq, Structural)]
pub struct BindBufferError;

/// The number of bytes each buffer element occupies.
pub const BYTES_PER_ELEMENT: usize = 4;

/// Mirrors the driver's array-buffer binding point, the target for vertex
/// data uploads.
pub struct ArrayBufferTarget {
    tracker: BindingTracker,
}

/// Mirrors the driver's element-array-buffer binding point, the target for
/// index data uploads.
pub struct ElementArrayBufferTarget {
    tracker: BindingTracker,
}

impl ArrayBufferTarget {
    /// The identifier of the buffer currently bound to the target, if any.
    pub closed spec fn bound_id(self) -> Option<u32> {
        self.tracker.bound_id()
    }

    /// The tracker mirrors the array-buffer slot and never holds the null
    /// identifier.
    pub closed spec fn wf(self) -> bool {
        self.tracker.spec_slot() == Slot::ArrayBuffer && self.tracker.wf()
    }

    /// A fresh target: nothing bound.
    pub fn new() -> (t: ArrayBufferTarget)
        ensures
            t.wf(),
            t.bound_id() is None,
    {
        ArrayBufferTarget { tracker: BindingTracker::new(Slot::ArrayBuffer) }
    }

    /// The current binding, for callers that inspect the state.
    pub fn bound(&self) -> (r: Option<u32>)
        ensures
            r == self.bound_id(),
    {
        self.tracker.bound()
    }

    /// Bind `buffer` to the target and return the driver call to issue.  A
    /// bind while another buffer is bound is rejected and changes nothing.
    pub fn bind(&mut self, buffer: &Buffer) -> (r: Result<DriverCommand, BindBufferError>)
        requires
            old(self).wf(),
            buffer.wf(),
        ensures
            final(self).wf(),
            final(self).bound_id() == bound_after_bind(old(self).bound_id(), buffer.spec_id()),
            r is Ok <==> old(self).bound_id() is None,
            r matches Ok(c) ==> c == (DriverCommand::Bind {
                slot: Slot::ArrayBuffer,
                id: buffer.spec_id(),
            }),
    {
        match self.tracker.bind(buffer.get_id()) {
            Ok(c) => Ok(c),
            Err(_) => Err(BindBufferError),
        }
    }

    /// Clear the target.  Returns the driver's bind-null call when a buffer
    /// was bound; when none was, there is nothing to issue.
    pub fn unbind(&mut self) -> (r: Option<DriverCommand>)
        requires
            old(self).wf(),
        ensures
            final(self).wf(),
            final(self).bound_id() == bound_after_unbind(old(self).bound_id()),
            r == unbind_result(Slot::ArrayBuffer, old(self).bound_id()),
    {
        self.tracker.unbind()
    }

    /// The driver call that uploads `len` elements of vertex data to the
    /// bound buffer, with the driver's usage hint, or a usage violation when
    /// no buffer is bound.  The caller supplies the bytes themselves; the
    /// command carries their exact count.
    pub fn buffer_data(&self, len: usize, usage: u32) -> (r: Result<DriverCommand, UsageViolation>)
        requires
            len * BYTES_PER_ELEMENT <= usize::MAX,
        ensures
            r is Ok <==> self.bound_id() is Some,
            r matches Ok(c) ==> c == (DriverCommand::BufferData {
                slot: Slot::ArrayBuffer,
                byte_len: (len * BYTES_PER_ELEMENT) as usize,
                usage,
            }),
            r matches Err(v) ==> v == UsageViolation::NotBound,
    {
        match self.tracker.bound() {
            Some(_) => Ok(
                DriverCommand::BufferData {
                    slot: Slot::ArrayBuffer,
                    byte_len: len * BYTES_PER_ELEMENT,
                    usage,
                },
            ),
            None => Err(UsageViolation::NotBound),
        }
    }
}

impl ElementArrayBufferTarget {
    /// The identifier of the buffer currently bound to the target, if any.
    pub closed spec fn bound_id(self) -> Option<u32> {
        self.tracker.bound_id()
    }

    /// The tracker mirrors the element-array-buffer slot and never holds the
    /// null identifier.
    pub closed spec fn wf(self) -> bool {
        self.tracker.spec_slot() == Slot::ElementArrayBuffer && self.tracker.wf()
    }

    /// A fresh target: nothing bound.
    pub fn new() -> (t: ElementArrayBufferTarget)
        ensures
            t.wf(),
            t.bound_id() is None,
    {
        ElementArrayBufferTarget { tracker: BindingTracker::new(Slot::ElementArrayBuffer) }
    }

    /// The current binding, for callers that inspect the state.
    pub fn bound(&self) -> (r: Option<u32>)
        ensures
            r == self.bound_id(),
    {
        self.tracker.bound()
    }

    /// Bind `buffer` to the target and return the driver call to issue.  A
    /// bind while another buffer is bound is rejected and changes nothing.
    pub fn bind(&mut self, buffer: &Buffer) -> (r: Result<DriverCommand, BindBufferError>)
        requires
            old(self).wf(),
            buffer.wf(),
        ensures
            final(self).wf(),
            final(self).bound_id() == bound_after_bind(old(self).bound_id(), buffer.spec_id()),
            r is Ok <==> old(self).bound_id() is None,
            r matches Ok(c) ==> c == (DriverCommand::Bind {
                slot: Slot::ElementArrayBuffer,
                id: buffer.spec_id(),
            }),
    {
        match self.tracker.bind(buffer.get_id()) {
            Ok(c) => Ok(c),
            Err(_) => Err(BindBufferError),
        }
    }

    /// Clear the target.  Returns the driver's bind-null call when a buffer
    /// was bound; when none was, there is nothing to issue.
    pub fn unbind(&mut self) -> (r: Option<DriverCommand>)
        requires
            old(self).wf(),
        ensures
            final(self).wf(),
            final(self).bound_id() == bound_after_unbind(old(self).bound_id()),
            r == unbind_result(Slot::ElementArrayBuffer, old(self).bound_id()),
    {
        self.tracker.unbind()
    }
}

/// The buffer binding points, one tracker per target, plus the generation of
/// buffer handles.
pub struct BufferTargets {
    pub array: ArrayBufferTarget,
    pub element_array: ElementArrayBufferTarget,
}

impl BufferTargets {
    /// Both targets mirror their slots.
    pub open spec fn wf(self) -> bool {
        self.array.wf() && self.element_array.wf()
    }

    /// Fresh targets: nothing bound anywhere.
    pub fn new() -> (t: BufferTargets)
        ensures
            t.wf(),
            t.array.bound_id() is None,
            t.element_array.bound_id() is None,
    {
        BufferTargets { array: ArrayBufferTarget::new(), element_array: ElementArrayBufferTarget::new() }
    }

    /// Wrap one driver-generated identifier, rejecting the null identifier.
    pub fn gen_one(&self, id: u32) -> (r: Result<Buffer, AllocationFailed>)
        ensures
            r is Ok <==> id != 0,
            r matches Ok(b) ==> b.spec_id() == id,
    {
        Buffer::gen_one(id)
    }

    /// Wrap a batch of driver-generated identifiers, in order, rejecting the
    /// whole batch if any identifier is null.
    pub fn gen(&self, ids: Vec<u32>) -> (r: Result<Vec<Buffer>, AllocationFailed>)
        ensures
            r is Ok <==> (forall|i: int| 0 <= i < ids@.len() ==> ids@[i] != 0),
            r matches Ok(bs) ==> {
                &&& bs@.len() == ids@.len()
                &&& forall|i: int| 0 <= i < ids@.len() ==> bs@[i].spec_id() == ids@[i]
            },
    {
        Buffer::gen(ids)
    }
}

/// The context root: one tracker per binding point of the driver's global
/// state machine, bundled as a single in-process point of truth.
///
/// The driver context is thread-affine, so one `Context` is meant to live on
/// the thread that created the driver context and stay there.
pub struct Context {
    pub buffers: BufferTargets,
    pub program: StateProgram,
    pub vertex_array: VertexArrayState,
}

impl Context {
    /// Every tracker mirrors its own slot.
    pub open spec fn wf(self) -> bool {
        self.buffers.wf() && self.program.wf() && self.vertex_array.wf()
    }

    /// A fresh context: every slot unbound, no program in use.
    pub fn new() -> (c: Context)
        ensures
            c.wf(),
            c.buffers.array.bound_id() is None,
            c.buffers.element_array.bound_id() is None,
            c.program.used_id() is None,
            c.vertex_array.bound_id() is None,
    {
        Context {
            buffers: BufferTargets::new(),
            program: StateProgram::new(),
            vertex_array: VertexArrayState::new(),
        }
    }
}

} // verus!
