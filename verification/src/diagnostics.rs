use vstd::prelude::*;

verus! {

/// The number of text bytes in an info log whose reported length is `len`.
///
/// The driver reports the log length including the trailing null byte, so a
/// report of one means an empty log.  A report of zero (no log at all) or a
/// negative report is treated as an empty log rather than underflowing.
pub open spec fn spec_info_log_capacity(len: i32) -> usize {
    if len >= 1 {
        (len - 1) as usize
    } else {
        0
    }
}

/// The buffer size to allocate before fetching an info log: exactly the
/// reported length minus the trailing null byte, and nothing for a report
/// that carries no text.
pub fn info_log_capacity(len: i32) -> (r: usize)
    ensures
        r == spec_info_log_capacity(len),
{
    if len >= 1 {
        (len - 1) as usize
    } else {
        0
    }
}

} // verus!
