//! The ownership gate and the query paths: configuring a search, running a
//! query against a modeled engine answer, reading items, releasing handles
//! in reverse order, and the non-blocking variant.

use everything_sdk::engine::{Engine, ResultList, SearchState, ALWAYS_FAST_SORT_BITS};
use everything_sdk::flags::{
    EVERYTHING_REQUEST_ATTRIBUTES, EVERYTHING_REQUEST_FILE_NAME,
    EVERYTHING_REQUEST_FULL_PATH_AND_FILE_NAME, EVERYTHING_REQUEST_PATH,
    EVERYTHING_REQUEST_RUN_COUNT, EVERYTHING_REQUEST_SIZE,
};
use everything_sdk::future::{is_completion_signal, QUERY_REPLY_ID, WM_COPYDATA};
use everything_sdk::{
    global, EverythingError, EverythingGlobal, InvalidRequestError, QueryFuture, QueryPoll,
    QueryReply, RawItem, RequestFlags, SortType,
};

fn online_engine() -> Engine {
    Engine {
        ipc_ok: true,
        db_loaded: true,
        admin: false,
        appdata: true,
        major: 1,
        minor: 4,
        revision: 1,
        build: 1024,
        machine: 2,
        fast_sort_bits: ALWAYS_FAST_SORT_BITS,
        file_info_bits: 0,
        search: SearchState::fresh(),
        last_error: everything_sdk::LastError::EVERYTHING_OK,
        results: ResultList::empty(),
        run_history: Vec::new(),
    }
}

fn raw_item(name: &str, path: &str, is_folder: bool, size: i64, run_count: u32) -> RawItem {
    let full_path = format!("{}\\{}", path, name);
    RawItem {
        is_volume: 0,
        is_folder: if is_folder { 1 } else { 0 },
        name: name.to_owned(),
        path: path.to_owned(),
        full_path,
        extension: "jpg".to_owned(),
        file_list_file_name: String::new(),
        highlighted_name: format!("*{}*", name),
        highlighted_path: path.to_owned(),
        highlighted_full_path: String::new(),
        size: if is_folder { -1 } else { size },
        date_created_low: 1,
        date_created_high: 0,
        date_modified_low: 2,
        date_modified_high: 0,
        date_accessed_low: 3,
        date_accessed_high: 0,
        date_run_low: 4,
        date_run_high: 0,
        date_recently_changed_low: 5,
        date_recently_changed_high: 1,
        attributes: 0x20,
        run_count,
    }
}

fn photo_reply(raw_flags: u32, raw_sort: u32) -> QueryReply {
    QueryReply {
        raw_sort,
        raw_flags,
        total_files: 2,
        total_folders: 1,
        items: vec![
            raw_item("beach.jpg", "C:\\photos", false, 2048, 7),
            raw_item("dunes.jpg", "C:\\photos", false, 4096, 0),
            raw_item("album", "C:\\photos", true, 0, 0),
        ],
    }
}

#[test]
fn offline_query_presents_an_empty_result_list() {
    let g = global();
    let mut s = g.searcher();
    s.set_search("jpg");
    let reply = photo_reply(0x0003, 1);
    assert!(reply.is_well_formed());
    // an unreachable engine ignores the answer entirely
    let r = s.query(QueryReply { items: Vec::new(), total_files: 0, total_folders: 0, ..reply });
    assert_eq!(r.len(), 0);
    assert_eq!(r.num(), 0);
    assert_eq!(r.total(), 0);
    assert!(r.at(0).is_none());
}

#[test]
fn scenario_jpg_query_counts_and_field_guards() {
    let requested = EVERYTHING_REQUEST_FILE_NAME
        | EVERYTHING_REQUEST_PATH
        | EVERYTHING_REQUEST_SIZE
        | EVERYTHING_REQUEST_RUN_COUNT;
    let g = EverythingGlobal::with_engine(online_engine());
    let mut s = g.searcher();
    s.set_search("jpg");
    s.set_request_flags(RequestFlags::from_bits(requested).unwrap());
    s.set_max(5);
    let reply = photo_reply(requested, 1);
    assert!(reply.is_well_formed());
    assert!(reply.fits_search(5, 0));
    let results = s.query(reply);
    assert!(results.len() <= 5);
    assert!(results.total() >= results.len());
    let item = results.at(0).unwrap();
    assert_eq!(item.size().unwrap(), 2048);
    assert_eq!(item.run_count().unwrap(), 7);
    assert_eq!(
        item.attributes(),
        Err(EverythingError::InvalidRequest(InvalidRequestError::RequestFlagsNotSet(
            RequestFlags { bits: EVERYTHING_REQUEST_ATTRIBUTES }
        )))
    );
}

#[test]
fn scenario_default_protocol_counters_refuse_version_two() {
    let g = EverythingGlobal::with_engine(online_engine());
    let mut s = g.searcher();
    s.set_search("jpg");
    s.set_sort(SortType::EVERYTHING_SORT_SIZE_ASCENDING);
    let results = s.query(photo_reply(0x0003, 5));
    assert!(results.is_query_version_2());
    assert_eq!(results.num_files(), Err(EverythingError::UnsupportedInQueryVersion2));
    assert_eq!(results.num_folders(), Err(EverythingError::UnsupportedInQueryVersion2));
    assert_eq!(results.total_files(), Err(EverythingError::UnsupportedInQueryVersion2));
    assert_eq!(results.total_folders(), Err(EverythingError::UnsupportedInQueryVersion2));
    // the protocol-agnostic counters still answer
    assert_eq!(results.num(), 3);
    assert_eq!(results.total(), 3);
}

#[test]
fn version_one_counters_split_files_and_folders() {
    let g = EverythingGlobal::with_engine(online_engine());
    let s = g.searcher();
    let results = s.query(photo_reply(0x0003, 1));
    assert!(!results.is_query_version_2());
    assert_eq!(results.num_files().unwrap(), 2);
    assert_eq!(results.num_folders().unwrap(), 1);
    assert_eq!(results.total_files().unwrap(), 2);
    assert_eq!(results.total_folders().unwrap(), 1);
}

#[test]
fn dropping_results_keeps_the_search_parameters() {
    let g = EverythingGlobal::with_engine(online_engine());
    let mut s = g.searcher();
    s.set_search("jpg");
    s.set_match_case(true);
    s.set_max(5);
    s.set_offset(0);
    let results = s.query(photo_reply(0x0003, 1));
    let s = results.finish();
    assert_eq!(s.get_search(), "jpg");
    assert!(s.get_match_case());
    assert_eq!(s.get_max(), 5);
    assert_eq!(s.get_offset(), 0);
}

#[test]
fn dropping_the_searcher_resets_the_documented_state() {
    let g = EverythingGlobal::with_engine(online_engine());
    let mut s = g.searcher();
    s.set_search("jpg");
    s.set_match_path(true);
    s.set_match_case(true);
    s.set_match_whole_word(true);
    s.set_regex(true);
    s.set_max(5);
    s.set_offset(3);
    s.set_sort(SortType::EVERYTHING_SORT_SIZE_DESCENDING);
    let g = s.finish();
    let s = g.searcher();
    assert_eq!(s.get_search(), "");
    assert!(!s.get_match_path());
    assert!(!s.get_match_case());
    assert!(!s.get_match_whole_word());
    assert!(!s.get_regex());
    assert_eq!(s.get_max(), u32::MAX);
    assert_eq!(s.get_offset(), 0);
    // the sort order survives a reset; only the switches are cleared
    assert_eq!(s.get_sort(), SortType::EVERYTHING_SORT_SIZE_DESCENDING);
}

#[test]
fn sort_and_flags_round_trip_through_the_engine_state() {
    let g = EverythingGlobal::with_engine(online_engine());
    let mut s = g.searcher();
    for code in 1..=26u32 {
        let sort = SortType::from_code(code).unwrap();
        s.set_sort(sort);
        assert_eq!(s.get_sort(), sort);
    }
    let flags = RequestFlags::from_bits(0x0413).unwrap();
    s.set_request_flags(flags);
    assert_eq!(s.get_request_flags(), flags);
}

#[test]
fn fulfilled_sort_may_be_substituted_but_is_always_representable() {
    let g = EverythingGlobal::with_engine(online_engine());
    let mut s = g.searcher();
    // ask for one order; the engine answers with another
    s.set_sort(SortType::EVERYTHING_SORT_DATE_RUN_DESCENDING);
    let results = s.query(photo_reply(0x0003, 1));
    assert_eq!(results.sort_type(), SortType::EVERYTHING_SORT_NAME_ASCENDING);
    assert!((1..=26).contains(&results.sort_type().code()));
}

#[test]
fn guard_is_exactly_bit_membership_for_every_mask() {
    for mask in 0..=0xFFFFu32 {
        let g = EverythingGlobal::with_engine(online_engine());
        let s = g.searcher();
        let results = s.query(photo_reply(mask, 1));
        let item = results.at(0).unwrap();
        assert_eq!(item.size().is_ok(), mask & EVERYTHING_REQUEST_SIZE != 0);
        assert_eq!(item.attributes().is_ok(), mask & EVERYTHING_REQUEST_ATTRIBUTES != 0);
        assert_eq!(item.filename().is_ok(), mask & EVERYTHING_REQUEST_FILE_NAME != 0);
        assert_eq!(item.run_count().is_ok(), mask & EVERYTHING_REQUEST_RUN_COUNT != 0);
        assert_eq!(
            item.filepath().is_ok(),
            mask & (EVERYTHING_REQUEST_FILE_NAME | EVERYTHING_REQUEST_PATH)
                == (EVERYTHING_REQUEST_FILE_NAME | EVERYTHING_REQUEST_PATH)
        );
    }
}

#[test]
fn folder_sizes_normalize_to_zero() {
    let g = EverythingGlobal::with_engine(online_engine());
    let s = g.searcher();
    let results = s.query(photo_reply(EVERYTHING_REQUEST_SIZE, 1));
    assert_eq!(results.at(0).unwrap().size().unwrap(), 2048);
    // the folder row came in with the engine's -1 sentinel
    assert_eq!(results.at(2).unwrap().size().unwrap(), 0);
}

#[test]
fn item_fields_and_kind_checks() {
    let g = EverythingGlobal::with_engine(online_engine());
    let s = g.searcher();
    let results = s.query(photo_reply(0xFFFF, 1));
    let item = results.at(0).unwrap();
    assert_eq!(item.index(), 0);
    assert!(item.is_file());
    assert!(!item.is_folder());
    assert!(!item.is_volume());
    assert_eq!(item.filename().unwrap(), "beach.jpg");
    assert_eq!(item.path().unwrap(), "C:\\photos");
    assert_eq!(item.extension().unwrap(), "jpg");
    assert_eq!(item.date_created().unwrap(), 1);
    assert_eq!(item.date_modified().unwrap(), 2);
    assert_eq!(item.date_accessed().unwrap(), 3);
    assert_eq!(item.date_run().unwrap(), 4);
    assert_eq!(item.date_recently_changed().unwrap(), 0x1_0000_0005);
    assert_eq!(item.attributes().unwrap(), 0x20);
    assert_eq!(item.highlighted_filename().unwrap(), "*beach.jpg*");
    assert_eq!(item.highlighted_path().unwrap(), "C:\\photos");
    assert_eq!(item.highlighted_full_path_and_filename().unwrap(), "");
    assert_eq!(item.file_list_filename().unwrap(), "");
    let folder = results.at(2).unwrap();
    assert!(folder.is_folder());
    assert!(!folder.is_file());
}

#[test]
fn two_phase_probe_then_fill_is_off_by_one() {
    let g = EverythingGlobal::with_engine(online_engine());
    let s = g.searcher();
    let results = s.query(photo_reply(0xFFFF, 1));
    let item = results.at(0).unwrap();
    // "C:\photos\beach.jpg" is 19 characters of plain text
    let hint = item.full_path_name_size_hint();
    assert_eq!(hint, 20);
    let mut buf = vec![0u16; hint as usize];
    let written = item.full_path_name_fill(&mut buf);
    assert_eq!(written + 1, hint);
    assert_eq!(buf[written as usize], 0);
}

#[test]
fn filepath_round_trips_through_the_wide_encoding() {
    let g = EverythingGlobal::with_engine(online_engine());
    let mut s = g.searcher();
    s.set_search("strand");
    let mut item = raw_item("strand \u{00DF}\u{6D77}\u{1F3D6}.jpg", "C:\\photos", false, 1, 0);
    item.full_path = "C:\\photos\\strand \u{00DF}\u{6D77}\u{1F3D6}.jpg".to_owned();
    let reply = QueryReply {
        raw_sort: 1,
        raw_flags: 0xFFFF,
        total_files: 1,
        total_folders: 0,
        items: vec![item],
    };
    assert!(reply.is_well_formed());
    let results = s.query(reply);
    let item = results.at(0).unwrap();
    assert_eq!(
        item.filepath().unwrap(),
        "C:\\photos\\strand \u{00DF}\u{6D77}\u{1F3D6}.jpg"
    );
    assert_eq!(item.full_path_name(None).unwrap(), "C:\\photos\\strand \u{00DF}\u{6D77}\u{1F3D6}.jpg");
    let hint = item.full_path_name_size_hint();
    assert_eq!(item.full_path_name(Some(hint)).unwrap(), "C:\\photos\\strand \u{00DF}\u{6D77}\u{1F3D6}.jpg");
    // a cap below the probe cuts the tail off but still answers
    assert!(item.full_path_name(Some(4)).is_ok());
}

#[test]
fn full_path_requires_its_own_bit() {
    let g = EverythingGlobal::with_engine(online_engine());
    let s = g.searcher();
    let results = s.query(photo_reply(0x0003, 1));
    let item = results.at(0).unwrap();
    assert_eq!(
        item.full_path_name(None),
        Err(EverythingError::InvalidRequest(InvalidRequestError::RequestFlagsNotSet(
            RequestFlags { bits: EVERYTHING_REQUEST_FULL_PATH_AND_FILE_NAME }
        )))
    );
}

#[test]
fn iterator_walks_every_visible_result() {
    let g = EverythingGlobal::with_engine(online_engine());
    let s = g.searcher();
    let results = s.query(photo_reply(0x0003, 1));
    let mut iter = results.iter();
    assert_eq!(iter.size_hint(), (3, Some(3)));
    let first = iter.next().unwrap();
    assert_eq!(first.index(), 0);
    assert_eq!(first.filename().unwrap(), "beach.jpg");
    assert_eq!(iter.size_hint(), (2, Some(2)));
    let third = iter.nth(1).unwrap();
    assert_eq!(third.index(), 2);
    assert!(iter.next().is_none());
    assert_eq!(iter.size_hint(), (0, Some(0)));
    // a fresh iterator can jump straight past the end
    let mut iter = results.iter();
    assert!(iter.nth(3).is_none());
    // at() agrees with iteration
    assert_eq!(results.at(1).unwrap().filename().unwrap(), "dunes.jpg");
    assert!(results.at(3).is_none());
}

#[test]
fn query_and_sort_by_path_orders_by_path_then_name() {
    let g = EverythingGlobal::with_engine(online_engine());
    let s = g.searcher();
    let reply = QueryReply {
        raw_sort: 1,
        raw_flags: 0x0003,
        total_files: 4,
        total_folders: 0,
        items: vec![
            raw_item("zebra.jpg", "D:\\work", false, 1, 0),
            raw_item("alpha.jpg", "C:\\photos", false, 1, 0),
            raw_item("beta.jpg", "C:\\photos", false, 1, 0),
            raw_item("alpha.jpg", "A:\\old", false, 1, 0),
        ],
    };
    let results = s._query_and_sort_by_path(reply);
    let names: Vec<String> = (0..results.len())
        .map(|i| {
            let it = results.at(i).unwrap();
            format!("{}\\{}", it.path().unwrap(), it.filename().unwrap())
        })
        .collect();
    assert_eq!(
        names,
        vec![
            "A:\\old\\alpha.jpg".to_owned(),
            "C:\\photos\\alpha.jpg".to_owned(),
            "C:\\photos\\beta.jpg".to_owned(),
            "D:\\work\\zebra.jpg".to_owned(),
        ]
    );
}

#[test]
fn a_zero_result_cap_shows_nothing() {
    let g = EverythingGlobal::with_engine(online_engine());
    let mut s = g.searcher();
    s.set_max(0);
    let reply = QueryReply {
        raw_sort: 1,
        raw_flags: 0x0003,
        total_files: 2,
        total_folders: 1,
        items: Vec::new(),
    };
    assert!(reply.fits_search(0, 0));
    let results = s.query(reply);
    assert_eq!(results.num(), 0);
    assert_eq!(results.total(), 3);
    assert!(results.at(0).is_none());
}

#[test]
fn an_offset_past_the_totals_shows_nothing() {
    let g = EverythingGlobal::with_engine(online_engine());
    let mut s = g.searcher();
    s.set_offset(10);
    let reply = QueryReply {
        raw_sort: 1,
        raw_flags: 0x0003,
        total_files: 2,
        total_folders: 1,
        items: Vec::new(),
    };
    assert!(reply.fits_search(u32::MAX, 10));
    let results = s.query(reply);
    assert_eq!(results.num(), 0);
    assert_eq!(results.total(), 3);
}

#[test]
fn completion_signal_is_the_matching_data_copy_message() {
    assert!(is_completion_signal(WM_COPYDATA, QUERY_REPLY_ID, QUERY_REPLY_ID));
    assert!(!is_completion_signal(WM_COPYDATA, QUERY_REPLY_ID + 1, QUERY_REPLY_ID));
    assert!(!is_completion_signal(WM_COPYDATA + 1, QUERY_REPLY_ID, QUERY_REPLY_ID));
}

#[test]
fn async_query_signals_once_and_matches_the_blocking_path() {
    // the blocking path first
    let g = EverythingGlobal::with_engine(online_engine());
    let mut s = g.searcher();
    s.set_search("jpg");
    let sync_results = s.query(photo_reply(0x0003, 1));
    let sync_num = sync_results.num();
    let sync_total = sync_results.total();

    // the non-blocking path with identical parameters and answer
    let g = EverythingGlobal::with_engine(online_engine());
    let mut s = g.searcher();
    s.set_search("jpg");
    let future = QueryFuture::new(s, photo_reply(0x0003, 1));
    let mut future = match future.poll() {
        QueryPoll::Pending(f) => f,
        QueryPoll::Ready(_) => panic!("the future completed before the worker signaled"),
    };
    assert!(future.signal(), "the first signal must report that it fired");
    assert!(!future.signal(), "a second signal must report that it did not fire");
    match future.poll() {
        QueryPoll::Pending(_) => panic!("the future must be ready after the signal"),
        QueryPoll::Ready(results) => {
            assert_eq!(results.num(), sync_num);
            assert_eq!(results.total(), sync_total);
            assert_eq!(results.sort_type(), sync_results.sort_type());
            assert_eq!(results.request_flags(), sync_results.request_flags());
        }
    }
}
