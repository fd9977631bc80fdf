//! The requested-field bitmask: which pieces of result data the caller asks
//! the engine to populate for each item.

use vstd::prelude::*;

verus! {

pub const EVERYTHING_REQUEST_FILE_NAME: u32 = 0x00000001;
pub const EVERYTHING_REQUEST_PATH: u32 = 0x00000002;
pub const EVERYTHING_REQUEST_FULL_PATH_AND_FILE_NAME: u32 = 0x00000004;
pub const EVERYTHING_REQUEST_EXTENSION: u32 = 0x00000008;
pub const EVERYTHING_REQUEST_SIZE: u32 = 0x00000010;
pub const EVERYTHING_REQUEST_DATE_CREATED: u32 = 0x00000020;
pub const EVERYTHING_REQUEST_DATE_MODIFIED: u32 = 0x00000040;
pub const EVERYTHING_REQUEST_DATE_ACCESSED: u32 = 0x00000080;
pub const EVERYTHING_REQUEST_ATTRIBUTES: u32 = 0x00000100;
pub const EVERYTHING_REQUEST_FILE_LIST_FILE_NAME: u32 = 0x00000200;
pub const EVERYTHING_REQUEST_RUN_COUNT: u32 = 0x00000400;
pub const EVERYTHING_REQUEST_DATE_RUN: u32 = 0x00000800;
pub const EVERYTHING_REQUEST_DATE_RECENTLY_CHANGED: u32 = 0x00001000;
pub const EVERYTHING_REQUEST_HIGHLIGHTED_FILE_NAME: u32 = 0x00002000;
pub const EVERYTHING_REQUEST_HIGHLIGHTED_PATH: u32 = 0x00004000;
pub const EVERYTHING_REQUEST_HIGHLIGHTED_FULL_PATH_AND_FILE_NAME: u32 = 0x00008000;

/// Every bit the engine defines for requested fields.
pub const ALL_REQUEST_BITS: u32 = 0x0000FFFF;

/// The engine's default request: file name and path.
pub const DEFAULT_REQUEST_BITS: u32 = 0x00000003;

/// A set of requested result fields, one bit per field.
#[derive(Clone, Copy, Debug, PartialEq, Eq, Hash, Structural)]
pub struct RequestFlags {
    pub bits: u32,
}

impl RequestFlags {
    /// Whether every bit of `other` is also set in `self`.
    pub open spec fn spec_contains(self, other: RequestFlags) -> bool {
        self.bits & other.bits == other.bits
    }

    /// Whether only defined field bits are set.
    pub open spec fn spec_valid(self) -> bool {
        self.bits & ALL_REQUEST_BITS == self.bits
    }

    /// Wrap a single defined bit or a combination of them.
    pub fn from_bits(bits: u32) -> (r: Option<RequestFlags>)
        ensures
            r == if bits & ALL_REQUEST_BITS == bits {
                Some(RequestFlags { bits })
            } else {
                None::<RequestFlags>
            },
    {
        if bits & ALL_REQUEST_BITS == bits {
            Some(RequestFlags { bits })
        } else {
            None
        }
    }

    /// The raw bit pattern.
    pub fn bits(self) -> (r: u32)
        ensures
            r == self.bits,
    {
        self.bits
    }

    #[verifier::when_used_as_spec(spec_contains)]
    pub fn contains(self, other: RequestFlags) -> (r: bool)
        ensures
            r == self.spec_contains(other),
    {
        self.bits & other.bits == other.bits
    }

    /// The fields of `self` together with those of `other`.
    pub fn union(self, other: RequestFlags) -> (r: RequestFlags)
        ensures
            r.bits == self.bits | other.bits,
    {
        RequestFlags { bits: self.bits | other.bits }
    }
}

impl Default for RequestFlags {
    /// The engine's default requested fields: file name and path.
    fn default() -> (r: Self)
        ensures
            r.bits == DEFAULT_REQUEST_BITS,
    {
        RequestFlags { bits: DEFAULT_REQUEST_BITS }
    }
}

/// Whether a bitmask is exactly the engine's default request (name and path).
/// The default request keeps the engine on its older query protocol.
pub fn is_default_request_flags(request_flags: RequestFlags) -> (r: bool)
    ensures
        r == (request_flags.bits == DEFAULT_REQUEST_BITS),
{
    request_flags.bits == DEFAULT_REQUEST_BITS
}

} // verus!
