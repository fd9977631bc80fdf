//! The engine's answer to a query, as it crosses the IPC boundary.
//!
//! Only the real engine can compute which files match; its answer arrives
//! here as plain raw values - 32-bit booleans, split file times, numeric
//! sort and flag codes - exactly as the wire hands them over.  The
//! well-formedness conditions below are the engine's documented contract
//! for that answer; everything the engine's contract rules out is a defect,
//! not an input, so [`crate::EverythingSearcher::query`] excludes it by
//! `requires` and the checkers here let an unverified caller test it first.

use vstd::prelude::*;
use vstd::string::StrSliceExecFns;

use crate::engine::MAX_FULL_PATH_CHARS;
use crate::engine::ResultList;
use crate::engine::ResultRow;
use crate::engine::SearchState;
use crate::flags::ALL_REQUEST_BITS;
use crate::flags::RequestFlags;
use crate::marshal::no_nul;
use crate::raw::filetime_to_u64;
use crate::raw::lower_bool;
use crate::raw::spec_filetime;
use crate::sort::SortType;

verus! {

/// Whether a text has no interior nul character, checked character by
/// character.
pub fn check_no_nul(s: &str) -> (r: bool)
    ensures
        r == no_nul(s@),
{
    let len = s.unicode_len();
    let mut i: usize = 0;
    while i < len
        invariant
            len == s@.len(),
            i <= len,
            forall|j: int| 0 <= j < i ==> s@[j] != '\0',
        decreases len - i,
    {
        if s.get_char(i) == '\0' {
            return false;
        }
        i += 1;
    }
    true
}

/// One visible result as the engine serves it: raw booleans, raw split
/// file times, and the engine-owned strings already copied into owned
/// buffers.
pub struct RawItem {
    /// 0 or 1: whether the result is the root folder of a volume.
    pub is_volume: i32,
    /// 0 or 1: whether the result is a folder (volumes count as folders).
    pub is_folder: i32,
    pub name: String,
    pub path: String,
    pub full_path: String,
    pub extension: String,
    pub file_list_file_name: String,
    pub highlighted_name: String,
    pub highlighted_path: String,
    pub highlighted_full_path: String,
    /// Size in bytes for a file; for a folder the engine serves the
    /// sentinel -1, or 0 when attributes were requested.
    pub size: i64,
    pub date_created_low: u32,
    pub date_created_high: u32,
    pub date_modified_low: u32,
    pub date_modified_high: u32,
    pub date_accessed_low: u32,
    pub date_accessed_high: u32,
    pub date_run_low: u32,
    pub date_run_high: u32,
    pub date_recently_changed_low: u32,
    pub date_recently_changed_high: u32,
    pub attributes: u32,
    pub run_count: u32,
}

impl RawItem {
    /// The engine's documented contract for one served item.
    pub open spec fn wf(self) -> bool {
        &&& self.is_volume == 0 || self.is_volume == 1
        &&& self.is_folder == 0 || self.is_folder == 1
        &&& self.is_volume == 1 ==> self.is_folder == 1
        &&& self.is_folder == 1 ==> self.size == -1 || self.size == 0
        &&& self.is_folder == 0 ==> self.size >= 0
        &&& no_nul(self.full_path@)
        &&& self.full_path@.len() <= MAX_FULL_PATH_CHARS
    }

    /// Check the engine's documented contract for this item.
    pub fn is_well_formed(&self) -> (r: bool)
        ensures
            r == self.wf(),
    {
        (self.is_volume == 0 || self.is_volume == 1) && (self.is_folder == 0 || self.is_folder
            == 1) && (self.is_volume != 1 || self.is_folder == 1) && (if self.is_folder == 1 {
            self.size == -1 || self.size == 0
        } else {
            self.size >= 0
        }) && check_no_nul(self.full_path.as_str()) && self.full_path.as_str().unicode_len()
            <= MAX_FULL_PATH_CHARS
    }
}

/// How a typed result row relates to the raw item it was built from.
pub open spec fn row_matches(row: ResultRow, raw: RawItem) -> bool {
    &&& row.is_volume == (raw.is_volume == 1)
    &&& row.is_folder == (raw.is_folder == 1)
    &&& row.name == raw.name
    &&& row.path == raw.path
    &&& row.full_path == raw.full_path
    &&& row.extension == raw.extension
    &&& row.file_list_file_name == raw.file_list_file_name
    &&& row.highlighted_name == raw.highlighted_name
    &&& row.highlighted_path == raw.highlighted_path
    &&& row.highlighted_full_path == raw.highlighted_full_path
    &&& row.size == raw.size
    &&& row.date_created == spec_filetime(raw.date_created_low, raw.date_created_high)
    &&& row.date_modified == spec_filetime(raw.date_modified_low, raw.date_modified_high)
    &&& row.date_accessed == spec_filetime(raw.date_accessed_low, raw.date_accessed_high)
    &&& row.date_run == spec_filetime(raw.date_run_low, raw.date_run_high)
    &&& row.date_recently_changed == spec_filetime(
        raw.date_recently_changed_low,
        raw.date_recently_changed_high,
    )
    &&& row.attributes == raw.attributes
    &&& row.run_count == raw.run_count
}

/// How an installed result list relates to the reply it was built from.
pub open spec fn list_matches_reply(list: ResultList, reply: QueryReply) -> bool {
    &&& list.sort.spec_code() == reply.raw_sort
    &&& list.flags.bits == reply.raw_flags
    &&& list.total_files == reply.total_files
    &&& list.total_folders == reply.total_folders
    &&& list.items@.len() == reply.items@.len()
    &&& forall|i: int|
        0 <= i < reply.items@.len() ==> row_matches(
            #[trigger] list.items@[i],
            reply.items@[i],
        )
}

/// How many results are visible given the totals, the first-result offset
/// and the result cap.
pub open spec fn spec_visible(total: int, offset: int, max: int) -> int {
    let avail = if total > offset {
        total - offset
    } else {
        0
    };
    if avail < max {
        avail
    } else {
        max
    }
}

/// The engine's whole answer to one query: the sort order and
/// requested-field bitmask it actually fulfilled (raw codes, possibly
/// different from what was asked), the pre-truncation totals, and the
/// visible items.
pub struct QueryReply {
    pub raw_sort: u32,
    pub raw_flags: u32,
    pub total_files: u32,
    pub total_folders: u32,
    pub items: Vec<RawItem>,
}

impl QueryReply {
    /// The engine's documented contract for an answer: a real sort code, no
    /// undefined flag bits, totals that fit the counter, and well-formed
    /// items.
    pub open spec fn wf(self) -> bool {
        &&& 1 <= self.raw_sort <= 26
        &&& self.raw_flags & ALL_REQUEST_BITS == self.raw_flags
        &&& self.total_files + self.total_folders <= u32::MAX
        &&& self.items@.len() <= u32::MAX
        &&& forall|i: int| 0 <= i < self.items@.len() ==> (#[trigger] self.items@[i]).wf()
    }

    /// The engine shows exactly the results between the offset and the cap:
    /// the number of visible items follows from the totals and the search
    /// parameters in force.
    pub open spec fn fits(self, search: SearchState) -> bool {
        self.items@.len() == spec_visible(
            self.total_files + self.total_folders,
            search.offset as int,
            search.max_results as int,
        )
    }

    /// Check the engine's documented contract for this answer.
    pub fn is_well_formed(&self) -> (r: bool)
        ensures
            r == self.wf(),
    {
        if !(1 <= self.raw_sort && self.raw_sort <= 26) {
            return false;
        }
        if self.raw_flags & ALL_REQUEST_BITS != self.raw_flags {
            return false;
        }
        if !(self.total_files as u64 + self.total_folders as u64 <= u32::MAX as u64) {
            return false;
        }
        if !(self.items.len() as u64 <= u32::MAX as u64) {
            return false;
        }
        let mut i: usize = 0;
        while i < self.items.len()
            invariant
                i <= self.items@.len(),
                forall|j: int| 0 <= j < i ==> (#[trigger] self.items@[j]).wf(),
            decreases self.items@.len() - i,
        {
            if !self.items[i].is_well_formed() {
                return false;
            }
            i += 1;
        }
        true
    }

    /// Check that the number of visible items matches the given result cap
    /// and offset, as the engine guarantees for its own answers.
    pub fn fits_search(&self, max_results: u32, offset: u32) -> (r: bool)
        ensures
            r == (self.items@.len() == spec_visible(
                self.total_files + self.total_folders,
                offset as int,
                max_results as int,
            )),
    {
        let total = self.total_files as u64 + self.total_folders as u64;
        let avail = if total > offset as u64 {
            total - offset as u64
        } else {
            0
        };
        let visible = if avail < max_results as u64 {
            avail
        } else {
            max_results as u64
        };
        self.items.len() as u64 == visible
    }

    /// Turn the raw answer into the typed result list the engine will hold:
    /// booleans collapsed, file times combined, codes validated.
    pub fn into_list(self) -> (r: ResultList)
        requires
            self.wf(),
        ensures
            r.wf(),
            list_matches_reply(r, self),
    {
        let QueryReply { raw_sort, raw_flags, total_files, total_folders, items } = self;
        let sort = match SortType::from_code(raw_sort) {
            Some(s) => s,
            None => {
                proof {
                    assert(false);
                }
                SortType::EVERYTHING_SORT_NAME_ASCENDING
            },
        };
        let flags = RequestFlags { bits: raw_flags };
        let mut rows: Vec<ResultRow> = Vec::new();
        let mut i: usize = 0;
        while i < items.len()
            invariant
                self.wf(),
                items == self.items,
                i <= items@.len(),
                rows@.len() == i,
                forall|j: int| 0 <= j < i ==> row_matches(#[trigger] rows@[j], items@[j]),
                forall|j: int| 0 <= j < i ==> (#[trigger] rows@[j]).wf(),
            decreases items@.len() - i,
        {
            let raw = &items[i];
            let row = ResultRow {
                is_volume: lower_bool(raw.is_volume),
                is_folder: lower_bool(raw.is_folder),
                name: raw.name.clone(),
                path: raw.path.clone(),
                full_path: raw.full_path.clone(),
                extension: raw.extension.clone(),
                file_list_file_name: raw.file_list_file_name.clone(),
                highlighted_name: raw.highlighted_name.clone(),
                highlighted_path: raw.highlighted_path.clone(),
                highlighted_full_path: raw.highlighted_full_path.clone(),
                size: raw.size,
                date_created: filetime_to_u64(raw.date_created_low, raw.date_created_high),
                date_modified: filetime_to_u64(raw.date_modified_low, raw.date_modified_high),
                date_accessed: filetime_to_u64(raw.date_accessed_low, raw.date_accessed_high),
                date_run: filetime_to_u64(raw.date_run_low, raw.date_run_high),
                date_recently_changed: filetime_to_u64(
                    raw.date_recently_changed_low,
                    raw.date_recently_changed_high,
                ),
                attributes: raw.attributes,
                run_count: raw.run_count,
            };
            rows.push(row);
            i += 1;
        }
        ResultList { sort, flags, total_files, total_folders, items: rows }
    }
}

/// Law: a result list installed from a well-formed engine answer never
/// carries an unrepresentable sort order - the fulfilled code is always one
/// of the defined ones.
pub proof fn law_fulfilled_sort_valid(list: ResultList, reply: QueryReply)
    requires
        reply.wf(),
        list_matches_reply(list, reply),
    ensures
        1 <= list.sort.spec_code() <= 26,
{
}

} // verus!
