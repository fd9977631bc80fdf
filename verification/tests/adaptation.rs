//! The typed adaptation layer's primitives: boolean lowering, the
//! zero-or-error disambiguation, file-time assembly, bitmasks and the wire
//! enumerations.

use everything_sdk::flags::{
    ALL_REQUEST_BITS, DEFAULT_REQUEST_BITS, EVERYTHING_REQUEST_FILE_NAME, EVERYTHING_REQUEST_PATH,
    EVERYTHING_REQUEST_SIZE,
};
use everything_sdk::raw::{filetime_to_u64, lower_bool, lower_bool_or_ipc_error, zero_or_ipc_error};
use everything_sdk::{
    is_default_request_flags, is_default_sort_type, should_use_query_version_2, FileInfoType,
    LastError, RequestFlags, SortType, TargetMachine,
};

#[test]
fn lower_bool_collapses_the_two_legal_words() {
    assert!(lower_bool(1));
    assert!(!lower_bool(0));
}

#[test]
fn lower_bool_or_ipc_error_reads_the_register_only_on_zero() {
    assert_eq!(lower_bool_or_ipc_error(1, LastError::EVERYTHING_ERROR_IPC), Some(true));
    assert_eq!(lower_bool_or_ipc_error(0, LastError::EVERYTHING_OK), Some(false));
    assert_eq!(lower_bool_or_ipc_error(0, LastError::EVERYTHING_ERROR_IPC), None);
}

#[test]
fn zero_is_a_success_when_the_register_says_no_error() {
    assert_eq!(zero_or_ipc_error(0, LastError::EVERYTHING_OK), Some(0));
}

#[test]
fn zero_is_a_failure_when_the_register_says_ipc() {
    assert_eq!(zero_or_ipc_error(0, LastError::EVERYTHING_ERROR_IPC), None);
}

#[test]
fn nonzero_is_a_success_whatever_the_register_says() {
    assert_eq!(zero_or_ipc_error(7, LastError::EVERYTHING_ERROR_IPC), Some(7));
    assert_eq!(zero_or_ipc_error(7, LastError::EVERYTHING_OK), Some(7));
}

#[test]
fn filetime_halves_assemble_into_one_count() {
    assert_eq!(filetime_to_u64(0, 0), 0);
    assert_eq!(filetime_to_u64(1, 0), 1);
    assert_eq!(filetime_to_u64(0, 1), 0x1_0000_0000);
    assert_eq!(filetime_to_u64(0xFFFF_FFFF, 0xFFFF_FFFF), u64::MAX);
    assert_eq!(filetime_to_u64(0x0000_0001, 0x0000_0002), 0x2_0000_0001);
}

#[test]
fn request_flags_default_is_name_and_path() {
    let d = RequestFlags::default();
    assert_eq!(d.bits(), DEFAULT_REQUEST_BITS);
    assert_eq!(d.bits(), EVERYTHING_REQUEST_FILE_NAME | EVERYTHING_REQUEST_PATH);
    assert!(is_default_request_flags(d));
    assert!(!is_default_request_flags(RequestFlags { bits: EVERYTHING_REQUEST_SIZE }));
}

#[test]
fn request_flags_reject_undefined_bits() {
    assert!(RequestFlags::from_bits(ALL_REQUEST_BITS).is_some());
    assert!(RequestFlags::from_bits(0).is_some());
    assert!(RequestFlags::from_bits(0x0001_0000).is_none());
    assert!(RequestFlags::from_bits(u32::MAX).is_none());
}

#[test]
fn request_flags_contains_is_bit_membership() {
    let held = RequestFlags { bits: 0x0413 };
    assert!(held.contains(RequestFlags { bits: EVERYTHING_REQUEST_FILE_NAME }));
    assert!(held.contains(RequestFlags { bits: 0x0003 }));
    assert!(!held.contains(RequestFlags { bits: 0x0100 }));
    assert!(held.contains(RequestFlags { bits: 0 }));
    let u = RequestFlags { bits: 0x0003 }.union(RequestFlags { bits: 0x0410 });
    assert_eq!(u.bits(), 0x0413);
}

#[test]
fn every_sort_code_round_trips() {
    for code in 1..=26u32 {
        let sort = SortType::from_code(code).unwrap();
        assert_eq!(sort.code(), code);
    }
    assert!(SortType::from_code(0).is_none());
    assert!(SortType::from_code(27).is_none());
}

#[test]
fn sort_default_is_name_ascending() {
    assert_eq!(SortType::default(), SortType::EVERYTHING_SORT_NAME_ASCENDING);
    assert!(is_default_sort_type(SortType::default()));
    assert!(!is_default_sort_type(SortType::EVERYTHING_SORT_NAME_DESCENDING));
}

#[test]
fn protocol_version_two_is_any_departure_from_the_defaults() {
    let d = RequestFlags::default();
    assert!(!should_use_query_version_2(d, SortType::default()));
    assert!(should_use_query_version_2(d, SortType::EVERYTHING_SORT_SIZE_ASCENDING));
    assert!(should_use_query_version_2(
        RequestFlags { bits: EVERYTHING_REQUEST_FILE_NAME },
        SortType::default()
    ));
}

#[test]
fn last_error_codes_round_trip() {
    for code in 0..=9u32 {
        let e = LastError::from_code(code).unwrap();
        assert_eq!(e.code(), code);
    }
    assert!(LastError::from_code(10).is_none());
}

#[test]
fn target_machine_codes_and_names() {
    assert_eq!(TargetMachine::from_code(0), None);
    assert_eq!(
        TargetMachine::from_code(1),
        Some(TargetMachine::EVERYTHING_TARGET_MACHINE_X86)
    );
    assert_eq!(
        TargetMachine::from_code(2),
        Some(TargetMachine::EVERYTHING_TARGET_MACHINE_X64)
    );
    assert_eq!(
        TargetMachine::from_code(3),
        Some(TargetMachine::EVERYTHING_TARGET_MACHINE_ARM)
    );
    assert_eq!(TargetMachine::from_code(4), None);
    assert_eq!(TargetMachine::EVERYTHING_TARGET_MACHINE_X64.describe(), "x64");
    assert_eq!(TargetMachine::EVERYTHING_TARGET_MACHINE_X86.describe(), "x86");
    assert_eq!(TargetMachine::EVERYTHING_TARGET_MACHINE_ARM.describe(), "arm");
}

#[test]
fn file_info_codes_round_trip() {
    for code in 1..=6u32 {
        let t = FileInfoType::from_code(code).unwrap();
        assert_eq!(t.code(), code);
    }
    assert!(FileInfoType::from_code(0).is_none());
    assert!(FileInfoType::from_code(7).is_none());
}
