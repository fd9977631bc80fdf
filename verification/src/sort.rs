//! The engine's small enumerations: sort orders, last-error codes, target
//! machines and indexable file-information kinds, each with its wire code.
//!
//! The engine speaks in raw 32-bit codes; every code that crosses the
//! boundary is validated here, so no unrepresentable value ever reaches a
//! caller as one of these types.

use vstd::prelude::*;

use crate::flags::DEFAULT_REQUEST_BITS;
use crate::flags::RequestFlags;

verus! {

/// How a result list is ordered.  Each column has an ascending and a
/// descending variant; the engine numbers them 1 through 26.
#[allow(non_camel_case_types)]
#[derive(Clone, Copy, Debug, PartialEq, Eq, Hash, Structural)]
pub enum SortType {
    EVERYTHING_SORT_NAME_ASCENDING,
    EVERYTHING_SORT_NAME_DESCENDING,
    EVERYTHING_SORT_PATH_ASCENDING,
    EVERYTHING_SORT_PATH_DESCENDING,
    EVERYTHING_SORT_SIZE_ASCENDING,
    EVERYTHING_SORT_SIZE_DESCENDING,
    EVERYTHING_SORT_EXTENSION_ASCENDING,
    EVERYTHING_SORT_EXTENSION_DESCENDING,
    EVERYTHING_SORT_TYPE_NAME_ASCENDING,
    EVERYTHING_SORT_TYPE_NAME_DESCENDING,
    EVERYTHING_SORT_DATE_CREATED_ASCENDING,
    EVERYTHING_SORT_DATE_CREATED_DESCENDING,
    EVERYTHING_SORT_DATE_MODIFIED_ASCENDING,
    EVERYTHING_SORT_DATE_MODIFIED_DESCENDING,
    EVERYTHING_SORT_ATTRIBUTES_ASCENDING,
    EVERYTHING_SORT_ATTRIBUTES_DESCENDING,
    EVERYTHING_SORT_FILE_LIST_FILENAME_ASCENDING,
    EVERYTHING_SORT_FILE_LIST_FILENAME_DESCENDING,
    EVERYTHING_SORT_RUN_COUNT_ASCENDING,
    EVERYTHING_SORT_RUN_COUNT_DESCENDING,
    EVERYTHING_SORT_DATE_RECENTLY_CHANGED_ASCENDING,
    EVERYTHING_SORT_DATE_RECENTLY_CHANGED_DESCENDING,
    EVERYTHING_SORT_DATE_ACCESSED_ASCENDING,
    EVERYTHING_SORT_DATE_ACCESSED_DESCENDING,
    EVERYTHING_SORT_DATE_RUN_ASCENDING,
    EVERYTHING_SORT_DATE_RUN_DESCENDING,
}

impl SortType {
    /// The numeric code the engine uses for this sort order.
    pub open spec fn spec_code(self) -> u32 {
        match self {
            SortType::EVERYTHING_SORT_NAME_ASCENDING => 1,
            SortType::EVERYTHING_SORT_NAME_DESCENDING => 2,
            SortType::EVERYTHING_SORT_PATH_ASCENDING => 3,
            SortType::EVERYTHING_SORT_PATH_DESCENDING => 4,
            SortType::EVERYTHING_SORT_SIZE_ASCENDING => 5,
            SortType::EVERYTHING_SORT_SIZE_DESCENDING => 6,
            SortType::EVERYTHING_SORT_EXTENSION_ASCENDING => 7,
            SortType::EVERYTHING_SORT_EXTENSION_DESCENDING => 8,
            SortType::EVERYTHING_SORT_TYPE_NAME_ASCENDING => 9,
            SortType::EVERYTHING_SORT_TYPE_NAME_DESCENDING => 10,
            SortType::EVERYTHING_SORT_DATE_CREATED_ASCENDING => 11,
            SortType::EVERYTHING_SORT_DATE_CREATED_DESCENDING => 12,
            SortType::EVERYTHING_SORT_DATE_MODIFIED_ASCENDING => 13,
            SortType::EVERYTHING_SORT_DATE_MODIFIED_DESCENDING => 14,
            SortType::EVERYTHING_SORT_ATTRIBUTES_ASCENDING => 15,
            SortType::EVERYTHING_SORT_ATTRIBUTES_DESCENDING => 16,
            SortType::EVERYTHING_SORT_FILE_LIST_FILENAME_ASCENDING => 17,
            SortType::EVERYTHING_SORT_FILE_LIST_FILENAME_DESCENDING => 18,
            SortType::EVERYTHING_SORT_RUN_COUNT_ASCENDING => 19,
            SortType::EVERYTHING_SORT_RUN_COUNT_DESCENDING => 20,
            SortType::EVERYTHING_SORT_DATE_RECENTLY_CHANGED_ASCENDING => 21,
            SortType::EVERYTHING_SORT_DATE_RECENTLY_CHANGED_DESCENDING => 22,
            SortType::EVERYTHING_SORT_DATE_ACCESSED_ASCENDING => 23,
            SortType::EVERYTHING_SORT_DATE_ACCESSED_DESCENDING => 24,
            SortType::EVERYTHING_SORT_DATE_RUN_ASCENDING => 25,
            SortType::EVERYTHING_SORT_DATE_RUN_DESCENDING => 26,
        }
    }

    #[verifier::when_used_as_spec(spec_code)]
    pub fn code(self) -> (r: u32)
        ensures
            r == self.spec_code(),
    {
        match self {
            SortType::EVERYTHING_SORT_NAME_ASCENDING => 1,
            SortType::EVERYTHING_SORT_NAME_DESCENDING => 2,
            SortType::EVERYTHING_SORT_PATH_ASCENDING => 3,
            SortType::EVERYTHING_SORT_PATH_DESCENDING => 4,
            SortType::EVERYTHING_SORT_SIZE_ASCENDING => 5,
            SortType::EVERYTHING_SORT_SIZE_DESCENDING => 6,
            SortType::EVERYTHING_SORT_EXTENSION_ASCENDING => 7,
            SortType::EVERYTHING_SORT_EXTENSION_DESCENDING => 8,
            SortType::EVERYTHING_SORT_TYPE_NAME_ASCENDING => 9,
            SortType::EVERYTHING_SORT_TYPE_NAME_DESCENDING => 10,
            SortType::EVERYTHING_SORT_DATE_CREATED_ASCENDING => 11,
            SortType::EVERYTHING_SORT_DATE_CREATED_DESCENDING => 12,
            SortType::EVERYTHING_SORT_DATE_MODIFIED_ASCENDING => 13,
            SortType::EVERYTHING_SORT_DATE_MODIFIED_DESCENDING => 14,
            SortType::EVERYTHING_SORT_ATTRIBUTES_ASCENDING => 15,
            SortType::EVERYTHING_SORT_ATTRIBUTES_DESCENDING => 16,
            SortType::EVERYTHING_SORT_FILE_LIST_FILENAME_ASCENDING => 17,
            SortType::EVERYTHING_SORT_FILE_LIST_FILENAME_DESCENDING => 18,
            SortType::EVERYTHING_SORT_RUN_COUNT_ASCENDING => 19,
            SortType::EVERYTHING_SORT_RUN_COUNT_DESCENDING => 20,
            SortType::EVERYTHING_SORT_DATE_RECENTLY_CHANGED_ASCENDING => 21,
            SortType::EVERYTHING_SORT_DATE_RECENTLY_CHANGED_DESCENDING => 22,
            SortType::EVERYTHING_SORT_DATE_ACCESSED_ASCENDING => 23,
            SortType::EVERYTHING_SORT_DATE_ACCESSED_DESCENDING => 24,
            SortType::EVERYTHING_SORT_DATE_RUN_ASCENDING => 25,
            SortType::EVERYTHING_SORT_DATE_RUN_DESCENDING => 26,
        }
    }

    /// Validate a raw sort code from the engine.  Exactly the codes 1
    /// through 26 name a sort order; anything else is rejected.
    pub fn from_code(code: u32) -> (r: Option<SortType>)
        ensures
            (1 <= code <= 26) <==> r is Some,
            r matches Some(s) ==> s.spec_code() == code,
    {
        match code {
            1 => Some(SortType::EVERYTHING_SORT_NAME_ASCENDING),
            2 => Some(SortType::EVERYTHING_SORT_NAME_DESCENDING),
            3 => Some(SortType::EVERYTHING_SORT_PATH_ASCENDING),
            4 => Some(SortType::EVERYTHING_SORT_PATH_DESCENDING),
            5 => Some(SortType::EVERYTHING_SORT_SIZE_ASCENDING),
            6 => Some(SortType::EVERYTHING_SORT_SIZE_DESCENDING),
            7 => Some(SortType::EVERYTHING_SORT_EXTENSION_ASCENDING),
            8 => Some(SortType::EVERYTHING_SORT_EXTENSION_DESCENDING),
            9 => Some(SortType::EVERYTHING_SORT_TYPE_NAME_ASCENDING),
            10 => Some(SortType::EVERYTHING_SORT_TYPE_NAME_DESCENDING),
            11 => Some(SortType::EVERYTHING_SORT_DATE_CREATED_ASCENDING),
            12 => Some(SortType::EVERYTHING_SORT_DATE_CREATED_DESCENDING),
            13 => Some(SortType::EVERYTHING_SORT_DATE_MODIFIED_ASCENDING),
            14 => Some(SortType::EVERYTHING_SORT_DATE_MODIFIED_DESCENDING),
            15 => Some(SortType::EVERYTHING_SORT_ATTRIBUTES_ASCENDING),
            16 => Some(SortType::EVERYTHING_SORT_ATTRIBUTES_DESCENDING),
            17 => Some(SortType::EVERYTHING_SORT_FILE_LIST_FILENAME_ASCENDING),
            18 => Some(SortType::EVERYTHING_SORT_FILE_LIST_FILENAME_DESCENDING),
            19 => Some(SortType::EVERYTHING_SORT_RUN_COUNT_ASCENDING),
            20 => Some(SortType::EVERYTHING_SORT_RUN_COUNT_DESCENDING),
            21 => Some(SortType::EVERYTHING_SORT_DATE_RECENTLY_CHANGED_ASCENDING),
            22 => Some(SortType::EVERYTHING_SORT_DATE_RECENTLY_CHANGED_DESCENDING),
            23 => Some(SortType::EVERYTHING_SORT_DATE_ACCESSED_ASCENDING),
            24 => Some(SortType::EVERYTHING_SORT_DATE_ACCESSED_DESCENDING),
            25 => Some(SortType::EVERYTHING_SORT_DATE_RUN_ASCENDING),
            26 => Some(SortType::EVERYTHING_SORT_DATE_RUN_DESCENDING),
            _ => None,
        }
    }
}

impl Default for SortType {
    /// The engine's default sort: name, ascending.
    fn default() -> (r: Self)
        ensures
            r == SortType::EVERYTHING_SORT_NAME_ASCENDING,
    {
        SortType::EVERYTHING_SORT_NAME_ASCENDING
    }
}

/// Whether a sort order is the engine's default (name ascending), which
/// keeps the engine on its older query protocol.
pub fn is_default_sort_type(sort_type: SortType) -> (r: bool)
    ensures
        r == (sort_type == SortType::EVERYTHING_SORT_NAME_ASCENDING),
{
    sort_type == SortType::EVERYTHING_SORT_NAME_ASCENDING
}

/// Whether a query configured with these flags and this sort runs under the
/// newer query protocol: it does exactly when either departs from its
/// default.
pub open spec fn spec_query_version_2(request_flags: RequestFlags, sort_type: SortType) -> bool {
    !(request_flags.bits == DEFAULT_REQUEST_BITS
        && sort_type == SortType::EVERYTHING_SORT_NAME_ASCENDING)
}

#[verifier::when_used_as_spec(spec_query_version_2)]
pub fn should_use_query_version_2(request_flags: RequestFlags, sort_type: SortType) -> (r: bool)
    ensures
        r == spec_query_version_2(request_flags, sort_type),
{
    !(crate::flags::is_default_request_flags(request_flags) && is_default_sort_type(sort_type))
}

/// The engine's last-error register.
#[allow(non_camel_case_types)]
#[derive(Clone, Copy, Debug, PartialEq, Eq, Hash, Structural)]
pub enum LastError {
    EVERYTHING_OK,
    EVERYTHING_ERROR_MEMORY,
    EVERYTHING_ERROR_IPC,
    EVERYTHING_ERROR_REGISTERCLASSEX,
    EVERYTHING_ERROR_CREATEWINDOW,
    EVERYTHING_ERROR_CREATETHREAD,
    EVERYTHING_ERROR_INVALIDINDEX,
    EVERYTHING_ERROR_INVALIDCALL,
    EVERYTHING_ERROR_INVALIDREQUEST,
    EVERYTHING_ERROR_INVALIDPARAMETER,
}

impl LastError {
    /// The numeric code the engine uses for this error.
    pub open spec fn spec_code(self) -> u32 {
        match self {
            LastError::EVERYTHING_OK => 0,
            LastError::EVERYTHING_ERROR_MEMORY => 1,
            LastError::EVERYTHING_ERROR_IPC => 2,
            LastError::EVERYTHING_ERROR_REGISTERCLASSEX => 3,
            LastError::EVERYTHING_ERROR_CREATEWINDOW => 4,
            LastError::EVERYTHING_ERROR_CREATETHREAD => 5,
            LastError::EVERYTHING_ERROR_INVALIDINDEX => 6,
            LastError::EVERYTHING_ERROR_INVALIDCALL => 7,
            LastError::EVERYTHING_ERROR_INVALIDREQUEST => 8,
            LastError::EVERYTHING_ERROR_INVALIDPARAMETER => 9,
        }
    }

    #[verifier::when_used_as_spec(spec_code)]
    pub fn code(self) -> (r: u32)
        ensures
            r == self.spec_code(),
    {
        match self {
            LastError::EVERYTHING_OK => 0,
            LastError::EVERYTHING_ERROR_MEMORY => 1,
            LastError::EVERYTHING_ERROR_IPC => 2,
            LastError::EVERYTHING_ERROR_REGISTERCLASSEX => 3,
            LastError::EVERYTHING_ERROR_CREATEWINDOW => 4,
            LastError::EVERYTHING_ERROR_CREATETHREAD => 5,
            LastError::EVERYTHING_ERROR_INVALIDINDEX => 6,
            LastError::EVERYTHING_ERROR_INVALIDCALL => 7,
            LastError::EVERYTHING_ERROR_INVALIDREQUEST => 8,
            LastError::EVERYTHING_ERROR_INVALIDPARAMETER => 9,
        }
    }

    /// Validate a raw last-error code from the engine.
    pub fn from_code(code: u32) -> (r: Option<LastError>)
        ensures
            (code <= 9) <==> r is Some,
            r matches Some(e) ==> e.spec_code() == code,
    {
        match code {
            0 => Some(LastError::EVERYTHING_OK),
            1 => Some(LastError::EVERYTHING_ERROR_MEMORY),
            2 => Some(LastError::EVERYTHING_ERROR_IPC),
            3 => Some(LastError::EVERYTHING_ERROR_REGISTERCLASSEX),
            4 => Some(LastError::EVERYTHING_ERROR_CREATEWINDOW),
            5 => Some(LastError::EVERYTHING_ERROR_CREATETHREAD),
            6 => Some(LastError::EVERYTHING_ERROR_INVALIDINDEX),
            7 => Some(LastError::EVERYTHING_ERROR_INVALIDCALL),
            8 => Some(LastError::EVERYTHING_ERROR_INVALIDREQUEST),
            9 => Some(LastError::EVERYTHING_ERROR_INVALIDPARAMETER),
            _ => None,
        }
    }
}

/// The architecture the engine's process was built for.
#[allow(non_camel_case_types)]
#[derive(Clone, Copy, Debug, PartialEq, Eq, Hash, Structural)]
pub enum TargetMachine {
    EVERYTHING_TARGET_MACHINE_X86,
    EVERYTHING_TARGET_MACHINE_X64,
    EVERYTHING_TARGET_MACHINE_ARM,
}

impl TargetMachine {
    /// The numeric code the engine uses for this architecture.
    pub open spec fn spec_code(self) -> u32 {
        match self {
            TargetMachine::EVERYTHING_TARGET_MACHINE_X86 => 1,
            TargetMachine::EVERYTHING_TARGET_MACHINE_X64 => 2,
            TargetMachine::EVERYTHING_TARGET_MACHINE_ARM => 3,
        }
    }

    /// Validate a raw target-machine code from the engine; 0 means the
    /// information is unavailable.
    pub fn from_code(code: u32) -> (r: Option<TargetMachine>)
        ensures
            (1 <= code <= 3) <==> r is Some,
            r matches Some(m) ==> m.spec_code() == code,
    {
        match code {
            1 => Some(TargetMachine::EVERYTHING_TARGET_MACHINE_X86),
            2 => Some(TargetMachine::EVERYTHING_TARGET_MACHINE_X64),
            3 => Some(TargetMachine::EVERYTHING_TARGET_MACHINE_ARM),
            _ => None,
        }
    }

    /// A short human-readable name for the architecture.
    pub fn describe(self) -> (r: String)
        ensures
            self == TargetMachine::EVERYTHING_TARGET_MACHINE_X86 ==> r@ == "x86"@,
            self == TargetMachine::EVERYTHING_TARGET_MACHINE_X64 ==> r@ == "x64"@,
            self == TargetMachine::EVERYTHING_TARGET_MACHINE_ARM ==> r@ == "arm"@,
    {
        match self {
            TargetMachine::EVERYTHING_TARGET_MACHINE_X86 => "x86".to_owned(),
            TargetMachine::EVERYTHING_TARGET_MACHINE_X64 => "x64".to_owned(),
            TargetMachine::EVERYTHING_TARGET_MACHINE_ARM => "arm".to_owned(),
        }
    }
}

/// A kind of per-file information the engine's index may carry.
#[allow(non_camel_case_types)]
#[derive(Clone, Copy, Debug, PartialEq, Eq, Hash, Structural)]
pub enum FileInfoType {
    EVERYTHING_IPC_FILE_INFO_FILE_SIZE,
    EVERYTHING_IPC_FILE_INFO_FOLDER_SIZE,
    EVERYTHING_IPC_FILE_INFO_DATE_CREATED,
    EVERYTHING_IPC_FILE_INFO_DATE_MODIFIED,
    EVERYTHING_IPC_FILE_INFO_DATE_ACCESSED,
    EVERYTHING_IPC_FILE_INFO_ATTRIBUTES,
}

impl FileInfoType {
    /// The numeric code the engine uses for this information kind.
    pub open spec fn spec_code(self) -> u32 {
        match self {
            FileInfoType::EVERYTHING_IPC_FILE_INFO_FILE_SIZE => 1,
            FileInfoType::EVERYTHING_IPC_FILE_INFO_FOLDER_SIZE => 2,
            FileInfoType::EVERYTHING_IPC_FILE_INFO_DATE_CREATED => 3,
            FileInfoType::EVERYTHING_IPC_FILE_INFO_DATE_MODIFIED => 4,
            FileInfoType::EVERYTHING_IPC_FILE_INFO_DATE_ACCESSED => 5,
            FileInfoType::EVERYTHING_IPC_FILE_INFO_ATTRIBUTES => 6,
        }
    }

    #[verifier::when_used_as_spec(spec_code)]
    pub fn code(self) -> (r: u32)
        ensures
            r == self.spec_code(),
    {
        match self {
            FileInfoType::EVERYTHING_IPC_FILE_INFO_FILE_SIZE => 1,
            FileInfoType::EVERYTHING_IPC_FILE_INFO_FOLDER_SIZE => 2,
            FileInfoType::EVERYTHING_IPC_FILE_INFO_DATE_CREATED => 3,
            FileInfoType::EVERYTHING_IPC_FILE_INFO_DATE_MODIFIED => 4,
            FileInfoType::EVERYTHING_IPC_FILE_INFO_DATE_ACCESSED => 5,
            FileInfoType::EVERYTHING_IPC_FILE_INFO_ATTRIBUTES => 6,
        }
    }

    /// Validate a raw file-information code.
    pub fn from_code(code: u32) -> (r: Option<FileInfoType>)
        ensures
            (1 <= code <= 6) <==> r is Some,
            r matches Some(t) ==> t.spec_code() == code,
    {
        match code {
            1 => Some(FileInfoType::EVERYTHING_IPC_FILE_INFO_FILE_SIZE),
            2 => Some(FileInfoType::EVERYTHING_IPC_FILE_INFO_FOLDER_SIZE),
            3 => Some(FileInfoType::EVERYTHING_IPC_FILE_INFO_DATE_CREATED),
            4 => Some(FileInfoType::EVERYTHING_IPC_FILE_INFO_DATE_MODIFIED),
            5 => Some(FileInfoType::EVERYTHING_IPC_FILE_INFO_DATE_ACCESSED),
            6 => Some(FileInfoType::EVERYTHING_IPC_FILE_INFO_ATTRIBUTES),
            _ => None,
        }
    }
}

} // verus!
