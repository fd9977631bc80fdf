//! The errors a caller can see.
//!
//! Recoverable conditions (the engine is unreachable, a field was not
//! requested, an operation is undefined under the newer query protocol) are
//! returned as values; conditions the engine's documented contract rules out
//! are excluded by `requires` clauses instead, so no verified function here
//! panics.

use vstd::prelude::*;

use crate::flags::RequestFlags;

verus! {

/// Why a per-item field accessor refused to answer.
#[derive(Clone, Copy, Debug, PartialEq, Eq, Structural)]
pub enum InvalidRequestError {
    /// The given bits were missing from the result list's fulfilled
    /// requested-field bitmask; re-query with them set.
    RequestFlagsNotSet(RequestFlags),
}

/// Everything that can go wrong when talking to the engine.
#[derive(Clone, Copy, Debug, PartialEq, Eq, Structural)]
pub enum EverythingError {
    /// The engine could not allocate memory for the search query.
    Memory,
    /// The engine's process is not running or not reachable over IPC.
    Ipc,
    /// The reply window class could not be registered.
    RegisterClassEx,
    /// The reply window could not be created.
    CreateWindow,
    /// The listening thread could not be created.
    CreateThread,
    /// The index was not less than the number of visible results.
    InvalidIndex,
    /// A call was made in a state where it has no meaning.
    InvalidCall,
    /// Result data was read that was never requested.
    InvalidRequest(InvalidRequestError),
    /// A parameter was rejected by the engine.
    InvalidParameter,
    /// The operation is only defined under the engine's older query
    /// protocol, but a non-default sort or requested-field bitmask put the
    /// result list under the newer one.
    UnsupportedInQueryVersion2,
}

impl EverythingError {
    /// A short human-readable description of the error.
    pub fn describe(self) -> (r: String)
        ensures
            self == EverythingError::Ipc ==> r@ == "IPC is not available."@,
    {
        match self {
            EverythingError::Memory => {
                "Failed to allocate memory for the search query.".to_owned()
            },
            EverythingError::Ipc => "IPC is not available.".to_owned(),
            EverythingError::RegisterClassEx => {
                "Failed to register the search query window class.".to_owned()
            },
            EverythingError::CreateWindow => "Failed to create the search query window.".to_owned(),
            EverythingError::CreateThread => "Failed to create the search query thread.".to_owned(),
            EverythingError::InvalidIndex => {
                "Invalid index. The index must be greater or equal to 0 and less than the number of visible results.".to_owned()
            },
            EverythingError::InvalidCall => "Invalid call.".to_owned(),
            EverythingError::InvalidRequest(_) => {
                "invalid request data, request data first.".to_owned()
            },
            EverythingError::InvalidParameter => "bad parameter.".to_owned(),
            EverythingError::UnsupportedInQueryVersion2 => {
                "not supported when using set_request_flags or set_sort to non-default value.".to_owned()
            },
        }
    }
}

} // verus!
