//! The raw conventions of the engine's call surface, as pure functions.
//!
//! The engine signals through narrow channels: a boolean is a 32-bit word
//! that must be 0 or 1; a counter that returns 0 may mean "zero" or "the
//! call failed", and only the last-error register tells them apart; a
//! file time arrives as two 32-bit halves.  Each convention is captured
//! here once, with an exact contract, and used by every operation that
//! crosses the boundary.

use vstd::prelude::*;

use crate::sort::LastError;

verus! {

/// Collapse an engine boolean to `bool`.  The engine's contract allows only
/// 0 and 1; any other bit pattern is a defect between this crate and the
/// engine, not a recoverable error, so it is excluded up front.
pub fn lower_bool(b: i32) -> (r: bool)
    requires
        b == 0 || b == 1,
    ensures
        r == (b == 1),
{
    b == 1
}

/// Collapse an engine boolean where a 0 answer is ambiguous: it may be a
/// genuine `false` or a failed call.  The last-error register read right
/// after the call decides; its documented contract allows only "no error"
/// or "IPC unavailable" there, so other values are excluded up front.
pub fn lower_bool_or_ipc_error(b: i32, last_error: LastError) -> (r: Option<bool>)
    requires
        b == 0 || b == 1,
        b == 0 ==> last_error == LastError::EVERYTHING_OK || last_error
            == LastError::EVERYTHING_ERROR_IPC,
    ensures
        b == 1 ==> r == Some(true),
        b == 0 && last_error == LastError::EVERYTHING_OK ==> r == Some(false),
        b == 0 && last_error == LastError::EVERYTHING_ERROR_IPC ==> r == None::<bool>,
{
    if b == 1 {
        Some(true)
    } else {
        match last_error {
            LastError::EVERYTHING_OK => Some(false),
            _ => None,
        }
    }
}

/// Disambiguate a counter that legitimately returns 0: a non-zero answer is
/// always a success, a 0 answer is a success exactly when the last-error
/// register read right after the call says "no error", and a failure when
/// it says "IPC unavailable".  The call's documented contract allows no
/// other register value after a 0 answer, so those are excluded up front.
pub fn zero_or_ipc_error(n: u32, last_error: LastError) -> (r: Option<u32>)
    requires
        n == 0 ==> last_error == LastError::EVERYTHING_OK || last_error
            == LastError::EVERYTHING_ERROR_IPC,
    ensures
        n != 0 ==> r == Some(n),
        n == 0 && last_error == LastError::EVERYTHING_OK ==> r == Some(0u32),
        n == 0 && last_error == LastError::EVERYTHING_ERROR_IPC ==> r == None::<u32>,
{
    if n == 0 {
        match last_error {
            LastError::EVERYTHING_OK => Some(0),
            _ => None,
        }
    } else {
        Some(n)
    }
}

/// The value of a file time whose halves are `low` and `high`: the engine
/// hands dates out as two 32-bit words of one 64-bit count of 100-nanosecond
/// intervals.
pub open spec fn spec_filetime(low: u32, high: u32) -> u64 {
    (high * 0x1_0000_0000 + low) as u64
}

/// Combine the two halves of a file time into the 64-bit count.
pub fn filetime_to_u64(low: u32, high: u32) -> (r: u64)
    ensures
        r == spec_filetime(low, high),
{
    let r: u64 = ((high as u64) << 32u64) | (low as u64);
    proof {
        assert(((high as u64) << 32u64) | (low as u64) == high * 0x1_0000_0000 + low)
            by (bit_vector);
    }
    r
}

} // verus!
