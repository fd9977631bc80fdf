//! The session-level operations: version and status queries, index
//! maintenance requests, run history, and the last-error quirks around an
//! unreachable engine.

use everything_sdk::engine::{Engine, ResultList, SearchState, ALWAYS_FAST_SORT_BITS};
use everything_sdk::{
    global, EverythingError, EverythingGlobal, FileInfoType, LastError, SortType, TargetMachine,
};

fn online_engine() -> Engine {
    Engine {
        ipc_ok: true,
        db_loaded: true,
        admin: true,
        appdata: false,
        major: 1,
        minor: 4,
        revision: 1,
        build: 1024,
        machine: 2,
        fast_sort_bits: ALWAYS_FAST_SORT_BITS,
        file_info_bits: 0x01 | 0x04,
        search: SearchState::fresh(),
        last_error: LastError::EVERYTHING_OK,
        results: ResultList::empty(),
        run_history: Vec::new(),
    }
}

#[test]
fn every_operation_reports_ipc_when_the_engine_is_unreachable() {
    let mut g = global();
    assert_eq!(g.version(), Err(EverythingError::Ipc));
    assert_eq!(g.get_major_version(), Err(EverythingError::Ipc));
    assert_eq!(g.get_minor_version(), Err(EverythingError::Ipc));
    assert_eq!(g.get_revision(), Err(EverythingError::Ipc));
    assert_eq!(g.get_build_number(), Err(EverythingError::Ipc));
    assert_eq!(g.get_target_machine(), Err(EverythingError::Ipc));
    assert_eq!(g.save_and_exit(), Err(EverythingError::Ipc));
    assert_eq!(g.is_db_loaded(), Err(EverythingError::Ipc));
    assert_eq!(g.is_admin(), Err(EverythingError::Ipc));
    assert_eq!(g.is_appdata(), Err(EverythingError::Ipc));
    assert_eq!(g.rebuild_db(), Err(EverythingError::Ipc));
    assert_eq!(g.update_all_folder_indexes(), Err(EverythingError::Ipc));
    assert_eq!(g.save_db(), Err(EverythingError::Ipc));
    assert_eq!(g.save_run_history(), Err(EverythingError::Ipc));
    assert_eq!(g.delete_run_history(), Err(EverythingError::Ipc));
    assert_eq!(g.get_run_count("C:\\a.exe"), Err(EverythingError::Ipc));
    assert_eq!(g.set_run_count("C:\\a.exe", 3), Err(EverythingError::Ipc));
    assert_eq!(g.inc_run_count("C:\\a.exe"), Err(EverythingError::Ipc));
    assert_eq!(
        g.is_fast_sort(SortType::EVERYTHING_SORT_NAME_ASCENDING),
        Err(EverythingError::Ipc)
    );
    assert_eq!(
        g.is_file_info_indexed(FileInfoType::EVERYTHING_IPC_FILE_INFO_FILE_SIZE),
        Err(EverythingError::Ipc)
    );
}

#[test]
fn version_reads_every_part_of_the_engine_version() {
    let mut g = EverythingGlobal::with_engine(online_engine());
    let (major, minor, revision, build, machine) = g.version().unwrap();
    assert_eq!((major, minor, revision, build), (1, 4, 1, 1024));
    assert_eq!(machine, TargetMachine::EVERYTHING_TARGET_MACHINE_X64);
    assert_eq!(g.get_major_version().unwrap(), 1);
    assert_eq!(g.get_build_number().unwrap(), 1024);
}

#[test]
fn status_queries_report_the_engine_instance() {
    let mut g = EverythingGlobal::with_engine(online_engine());
    assert_eq!(g.is_db_loaded().unwrap(), true);
    assert_eq!(g.is_admin().unwrap(), true);
    assert_eq!(g.is_appdata().unwrap(), false);
    assert_eq!(g.save_and_exit().unwrap(), true);
    assert_eq!(g.rebuild_db().unwrap(), true);
    assert_eq!(g.update_all_folder_indexes().unwrap(), true);
    assert_eq!(g.save_db().unwrap(), true);
    assert_eq!(g.save_run_history().unwrap(), true);
}

#[test]
fn zero_major_version_is_a_valid_success_value() {
    // the ambiguous-zero quirk in the success direction: a genuine 0 with a
    // clear register reads as 0, not as a failure
    let mut engine = online_engine();
    engine.major = 0;
    let mut g = EverythingGlobal::with_engine(engine);
    assert_eq!(g.get_major_version(), Ok(0));
}

#[test]
fn run_history_set_get_and_increment() {
    let mut g = EverythingGlobal::with_engine(online_engine());
    assert_eq!(g.get_run_count("C:\\tools\\a.exe").unwrap(), 0);
    g.set_run_count("C:\\tools\\a.exe", 5).unwrap();
    assert_eq!(g.get_run_count("C:\\tools\\a.exe").unwrap(), 5);
    assert_eq!(g.inc_run_count("C:\\tools\\a.exe").unwrap(), 6);
    assert_eq!(g.get_run_count("C:\\tools\\a.exe").unwrap(), 6);
    // a different name has its own count
    assert_eq!(g.inc_run_count("C:\\tools\\b.exe").unwrap(), 1);
    assert_eq!(g.get_run_count("C:\\tools\\a.exe").unwrap(), 6);
    assert_eq!(g.get_run_count("C:\\tools\\b.exe").unwrap(), 1);
}

#[test]
fn resetting_one_run_count_leaves_the_others_alone() {
    let mut g = EverythingGlobal::with_engine(online_engine());
    g.set_run_count("C:\\tools\\a.exe", 5).unwrap();
    g.set_run_count("C:\\tools\\b.exe", 8).unwrap();
    g.set_run_count("C:\\tools\\a.exe", 2).unwrap();
    assert_eq!(g.get_run_count("C:\\tools\\a.exe").unwrap(), 2);
    assert_eq!(g.get_run_count("C:\\tools\\b.exe").unwrap(), 8);
}

#[test]
fn setting_a_zero_run_count_removes_the_history() {
    let mut g = EverythingGlobal::with_engine(online_engine());
    g.set_run_count("C:\\tools\\a.exe", 9).unwrap();
    g.set_run_count("C:\\tools\\a.exe", 0).unwrap();
    assert_eq!(g.get_run_count("C:\\tools\\a.exe").unwrap(), 0);
}

#[test]
fn incrementing_a_saturated_run_count_does_nothing() {
    let mut g = EverythingGlobal::with_engine(online_engine());
    g.set_run_count("C:\\tools\\a.exe", u32::MAX).unwrap();
    assert_eq!(g.inc_run_count("C:\\tools\\a.exe").unwrap(), u32::MAX);
    assert_eq!(g.get_run_count("C:\\tools\\a.exe").unwrap(), u32::MAX);
}

#[test]
fn deleting_run_history_clears_every_count() {
    let mut g = EverythingGlobal::with_engine(online_engine());
    g.set_run_count("C:\\tools\\a.exe", 2).unwrap();
    g.set_run_count("C:\\tools\\b.exe", 3).unwrap();
    assert_eq!(g.delete_run_history().unwrap(), true);
    assert_eq!(g.get_run_count("C:\\tools\\a.exe").unwrap(), 0);
    assert_eq!(g.get_run_count("C:\\tools\\b.exe").unwrap(), 0);
}

#[test]
fn a_stale_ipc_register_makes_a_zero_run_count_read_as_failure() {
    // the engine does not clear its last-error register on a successful
    // run-count read; a genuine 0 after a stale failure reads as one - the
    // ambiguous-zero quirk in the failure direction
    let mut engine = online_engine();
    engine.last_error = LastError::EVERYTHING_ERROR_IPC;
    let mut g = EverythingGlobal::with_engine(engine);
    assert_eq!(g.get_run_count("C:\\never-run.exe"), Err(EverythingError::Ipc));
    // any register-clearing operation heals the readout
    g.is_db_loaded().unwrap();
    assert_eq!(g.get_run_count("C:\\never-run.exe"), Ok(0));
}

#[test]
fn the_always_fast_sorts_are_fast_on_any_index() {
    let mut g = EverythingGlobal::with_engine(online_engine());
    for code in [1u32, 2, 19, 20, 21, 22, 25, 26] {
        let sort = SortType::from_code(code).unwrap();
        assert_eq!(g.is_fast_sort(sort).unwrap(), true);
    }
    assert_eq!(
        g.is_fast_sort(SortType::EVERYTHING_SORT_SIZE_ASCENDING).unwrap(),
        false
    );
}

#[test]
fn file_info_indexing_follows_the_engine_configuration() {
    let mut g = EverythingGlobal::with_engine(online_engine());
    assert_eq!(
        g.is_file_info_indexed(FileInfoType::EVERYTHING_IPC_FILE_INFO_FILE_SIZE).unwrap(),
        true
    );
    assert_eq!(
        g.is_file_info_indexed(FileInfoType::EVERYTHING_IPC_FILE_INFO_FOLDER_SIZE).unwrap(),
        false
    );
    assert_eq!(
        g.is_file_info_indexed(FileInfoType::EVERYTHING_IPC_FILE_INFO_DATE_CREATED).unwrap(),
        true
    );
}

#[test]
fn error_descriptions_name_the_condition() {
    assert_eq!(EverythingError::Ipc.describe(), "IPC is not available.");
}
