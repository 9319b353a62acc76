use vstd::prelude::*;

verus! {

/// The kinds of driver-side object this crate manages.
#[derive(Clone, Copy, Debug, PartialEq, Eq, Structural)]
pub enum Kind {
    Buffer,
    Shader,
    Program,
    VertexArray,
}

/// A binding point of the driver's global state machine.  Each slot holds at
/// most one currently active object of the matching kind.
#[derive(Clone, Copy, Debug, PartialEq, Eq, Structural)]
pub enum Slot {
    ArrayBuffer,
    ElementArrayBuffer,
    VertexArray,
    ActiveProgram,
}

/// One mutating call into the graphics driver.
///
/// The library never talks to the driver itself: every operation that changes
/// driver state is returned to the caller as a `DriverCommand`, in the order
/// in which the calls must be issued.  Queries (status, validity, log text)
/// run the other way: the caller performs them and hands the replies in as
/// plain values.
#[derive(Debug, PartialEq, Eq)]
pub enum DriverCommand {
    /// Make `id` the active object of `slot`.
    Bind { slot: Slot, id: u32 },
    /// Clear `slot` (bind the null object).
    BindNull { slot: Slot },
    /// Delete the object `id` of kind `kind`.
    Delete { kind: Kind, id: u32 },
    /// Replace the source text of shader `shader`.
    SetSource { shader: u32, source: String },
    /// Compile shader `shader`.
    Compile { shader: u32 },
    /// Attach shader `shader` to program `program`.
    Attach { program: u32, shader: u32 },
    /// Detach shader `shader` from program `program`.
    Detach { program: u32, shader: u32 },
    /// Link program `program`.
    Link { program: u32 },
    /// Upload `byte_len` bytes to the object bound to `slot`, with the given
    /// usage hint.  The caller supplies the bytes themselves.
    BufferData { slot: Slot, byte_len: usize, usage: u32 },
    /// Enable attribute `index` of the currently bound vertex array.
    EnableAttrib { index: u32 },
    /// Disable attribute `index` of the currently bound vertex array.
    DisableAttrib { index: u32 },
    /// Enable attribute `index` of vertex array `array`, bound or not.
    EnableArrayAttrib { array: u32, index: u32 },
    /// Disable attribute `index` of vertex array `array`, bound or not.
    DisableArrayAttrib { array: u32, index: u32 },
}

/// The deletion call issued for a handle of kind `kind` wrapping `id`, if the
/// driver still reports `id` as a live object of that kind: a handle whose
/// identifier is no longer valid is dropped without a driver call.
pub open spec fn delete_command(kind: Kind, id: u32, valid: bool) -> Option<DriverCommand> {
    if valid {
        Some(DriverCommand::Delete { kind, id })
    } else {
        None
    }
}

/// Destroying a handle whose identifier the driver reports as invalid issues
/// no deletion call, whatever the kind: deleting twice never happens.
pub proof fn lemma_invalid_handle_not_deleted(kind: Kind, id: u32)
    ensures
        delete_command(kind, id, false) is None,
{
}

} // verus!
