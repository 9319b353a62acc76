use vstd::prelude::*;

verus! {

/// The driver failed to produce a usable object identifier.  The null
/// identifier is the failure sentinel: no live object is ever named by it.
#[derive(Clone, Copy, Debug, PartialEq, Eq, Structural)]
pub struct AllocationFailed;

/// An in-process discipline violation: a programming error of the calling
/// code, not a failure of the environment.  It is reported as a typed error,
/// uniformly across the whole wrapper, and never silently swallowed.
#[derive(Clone, Copy, Debug, PartialEq, Eq, Structural)]
pub enum UsageViolation {
    /// A second bind was attempted on a slot that is already bound.
    AlreadyBound,
    /// An operation that needs a bound object found its slot unbound.
    NotBound,
    /// A compile was requested for a shader that was never given source text.
    NoSource,
}

/// Why a driver diagnostic log could not be retrieved.  The caller performs
/// the two-call fetch (length query, then contents) and reports its outcome
/// with this type.
#[derive(Clone, Copy, Debug, PartialEq, Eq, Structural)]
pub enum LogFault {
    /// The length query itself failed, with the driver's error code.
    QueryFailed(u32),
    /// The fetched bytes were not valid UTF-8.
    NotUtf8,
}

} // verus!
