//! A thin safety layer over a native graphics driver's object handles and
//! global binding state.
//!
//! The driver hands out raw integer identifiers for its objects (buffers,
//! shaders, programs, vertex arrays) and keeps one implicit "currently bound"
//! object per binding point.  This crate wraps the identifiers in owning
//! handles with an explicit lifecycle and mirrors each binding point in a
//! tracker that rejects double binds and pairs every state change with the
//! matching driver call.
//!
//! The crate never reaches the driver itself.  Every mutating driver call an
//! operation demands is returned to the caller as a [`command::DriverCommand`]
//! value, and every driver reply a decision depends on (a status, a validity
//! report, a diagnostic log) is handed in as a plain argument.  A thin
//! unverified shell owns the actual driver entry points, issues the returned
//! commands in order, and feeds the replies back.

use vstd::prelude::*;

pub mod buffer;
pub mod command;
pub mod context;
pub mod diagnostics;
pub mod error;
pub mod program;
pub mod role;
pub mod shader;
pub mod state_program;
pub mod tracker;
pub mod vertex_array;

verus! {

pub use role::Generator;

} // verus!
