//! An explicit model of the engine's process-wide mutable state.
//!
//! The real engine lives in another process and keeps exactly one search
//! parameter set, one last-error register, one current result list and one
//! run-history table.  Every operation of this crate is specified as a
//! transition on an [`Engine`] value, so the handle types can state
//! precisely which parts of that state they touch and which they leave
//! alone.

use vstd::prelude::*;

use crate::flags::DEFAULT_REQUEST_BITS;
use crate::flags::RequestFlags;
use crate::marshal::no_nul;
use crate::sort::LastError;
use crate::sort::SortType;

verus! {

/// The longest full path the platform can address, in characters.
pub const MAX_FULL_PATH_CHARS: usize = 32767;

/// One bit per sort order (bit `code - 1`); these eight orders are always
/// fast regardless of how the index is configured: name, run count,
/// recently-changed date and run date, each ascending and descending.
pub const ALWAYS_FAST_SORT_BITS: u32 = 0x033C0003;

/// The search parameters the engine holds between queries, plus the reply
/// routing used by non-blocking queries.
pub struct SearchState {
    pub search: String,
    pub match_path: bool,
    pub match_case: bool,
    pub match_whole_word: bool,
    pub regex: bool,
    pub max_results: u32,
    pub offset: u32,
    pub sort: SortType,
    pub request_flags: RequestFlags,
    pub reply_window: u64,
    pub reply_id: u32,
}

impl SearchState {
    pub open spec fn wf(self) -> bool {
        &&& no_nul(self.search@)
        &&& self.request_flags.spec_valid()
    }

    /// The state the engine documents as its default.
    pub open spec fn is_default(self) -> bool {
        &&& self.search@ == Seq::<char>::empty()
        &&& !self.match_path
        &&& !self.match_case
        &&& !self.match_whole_word
        &&& !self.regex
        &&& self.max_results == u32::MAX
        &&& self.offset == 0
        &&& self.sort == SortType::EVERYTHING_SORT_NAME_ASCENDING
        &&& self.request_flags.bits == DEFAULT_REQUEST_BITS
        &&& self.reply_window == 0
        &&& self.reply_id == 0
    }

    /// What the engine's reset call does to the parameters: search text,
    /// matching switches, result window and reply routing go back to their
    /// defaults; the sort order and requested-field bitmask are kept.
    pub open spec fn is_reset_of(self, pre: SearchState) -> bool {
        &&& self.search@ == Seq::<char>::empty()
        &&& !self.match_path
        &&& !self.match_case
        &&& !self.match_whole_word
        &&& !self.regex
        &&& self.max_results == u32::MAX
        &&& self.offset == 0
        &&& self.reply_window == 0
        &&& self.reply_id == 0
        &&& self.sort == pre.sort
        &&& self.request_flags == pre.request_flags
    }

    /// The engine's default parameters.
    pub fn fresh() -> (r: SearchState)
        ensures
            r.is_default(),
            r.wf(),
    {
        proof {
            assert(DEFAULT_REQUEST_BITS & crate::flags::ALL_REQUEST_BITS == DEFAULT_REQUEST_BITS)
                by (bit_vector);
        }
        SearchState {
            search: String::new(),
            match_path: false,
            match_case: false,
            match_whole_word: false,
            regex: false,
            max_results: u32::MAX,
            offset: 0,
            sort: SortType::EVERYTHING_SORT_NAME_ASCENDING,
            request_flags: RequestFlags { bits: DEFAULT_REQUEST_BITS },
            reply_window: 0,
            reply_id: 0,
        }
    }
}

/// Everything the engine serves about one visible result, copied out of the
/// engine's buffers into owned values.
pub struct ResultRow {
    pub is_volume: bool,
    pub is_folder: bool,
    pub name: String,
    pub path: String,
    pub full_path: String,
    pub extension: String,
    pub file_list_file_name: String,
    pub highlighted_name: String,
    pub highlighted_path: String,
    pub highlighted_full_path: String,
    /// Raw size as the engine reports it: non-negative for files, and for
    /// folders the sentinel -1 (attributes not requested) or 0 (requested).
    pub size: i64,
    pub date_created: u64,
    pub date_modified: u64,
    pub date_accessed: u64,
    pub date_run: u64,
    pub date_recently_changed: u64,
    pub attributes: u32,
    pub run_count: u32,
}

impl ResultRow {
    pub open spec fn wf(self) -> bool {
        &&& self.is_volume ==> self.is_folder
        &&& self.is_folder ==> self.size == -1 || self.size == 0
        &&& !self.is_folder ==> self.size >= 0
        &&& no_nul(self.full_path@)
        &&& self.full_path@.len() <= MAX_FULL_PATH_CHARS
    }

    /// An owned copy of the row.
    pub fn duplicate(&self) -> (r: ResultRow)
        ensures
            r == *self,
    {
        ResultRow {
            is_volume: self.is_volume,
            is_folder: self.is_folder,
            name: self.name.clone(),
            path: self.path.clone(),
            full_path: self.full_path.clone(),
            extension: self.extension.clone(),
            file_list_file_name: self.file_list_file_name.clone(),
            highlighted_name: self.highlighted_name.clone(),
            highlighted_path: self.highlighted_path.clone(),
            highlighted_full_path: self.highlighted_full_path.clone(),
            size: self.size,
            date_created: self.date_created,
            date_modified: self.date_modified,
            date_accessed: self.date_accessed,
            date_run: self.date_run,
            date_recently_changed: self.date_recently_changed,
            attributes: self.attributes,
            run_count: self.run_count,
        }
    }
}

/// The engine's current result list: the visible items together with the
/// sort order and requested-field bitmask the engine actually fulfilled and
/// the pre-truncation totals.
pub struct ResultList {
    pub sort: SortType,
    pub flags: RequestFlags,
    pub total_files: u32,
    pub total_folders: u32,
    pub items: Vec<ResultRow>,
}

impl ResultList {
    pub open spec fn wf(self) -> bool {
        &&& self.flags.spec_valid()
        &&& self.total_files + self.total_folders <= u32::MAX
        &&& self.items@.len() <= u32::MAX
        &&& forall|i: int| 0 <= i < self.items@.len() ==> (#[trigger] self.items@[i]).wf()
    }

    /// The list the engine holds before any query and after a reset.
    pub open spec fn is_empty_default(self) -> bool {
        &&& self.sort == SortType::EVERYTHING_SORT_NAME_ASCENDING
        &&& self.flags.bits == DEFAULT_REQUEST_BITS
        &&& self.total_files == 0
        &&& self.total_folders == 0
        &&& self.items@.len() == 0
    }

    /// An empty result list with default sort and flags.
    pub fn empty() -> (r: ResultList)
        ensures
            r.is_empty_default(),
            r.wf(),
    {
        proof {
            assert(DEFAULT_REQUEST_BITS & crate::flags::ALL_REQUEST_BITS == DEFAULT_REQUEST_BITS)
                by (bit_vector);
        }
        ResultList {
            sort: SortType::EVERYTHING_SORT_NAME_ASCENDING,
            flags: RequestFlags { bits: DEFAULT_REQUEST_BITS },
            total_files: 0,
            total_folders: 0,
            items: Vec::new(),
        }
    }
}

/// One file's run history: how often it was launched from the engine.
pub struct RunEntry {
    pub name: String,
    pub count: u32,
}

/// The run count the history assigns to a name: the count of its first
/// entry, or 0 when no entry carries the name ("no history" is the valid
/// zero).
pub open spec fn run_lookup(h: Seq<RunEntry>, name: Seq<char>) -> u32
    decreases h.len(),
{
    if h.len() == 0 {
        0
    } else if h[0].name@ == name {
        h[0].count
    } else {
        run_lookup(h.drop_first(), name)
    }
}

/// No two entries carry the same name.
pub open spec fn run_names_unique(h: Seq<RunEntry>) -> bool {
    forall|i: int, j: int| 0 <= i < j < h.len() ==> (#[trigger] h[i].name@) != (#[trigger] h[j].name@)
}

/// If position `i` holds the first entry named `h[i].name`, the lookup
/// returns its count.
pub proof fn lemma_run_lookup_found(h: Seq<RunEntry>, i: int)
    requires
        0 <= i < h.len(),
        forall|j: int| 0 <= j < i ==> (#[trigger] h[j].name@) != h[i].name@,
    ensures
        run_lookup(h, h[i].name@) == h[i].count,
    decreases i,
{
    if i > 0 {
        let t = h.drop_first();
        assert(forall|j: int| 0 <= j < i - 1 ==> (#[trigger] t[j].name@) == h[j + 1].name@);
        lemma_run_lookup_found(t, i - 1);
    }
}

/// A name no entry carries looks up to 0.
pub proof fn lemma_run_lookup_absent(h: Seq<RunEntry>, name: Seq<char>)
    requires
        forall|j: int| 0 <= j < h.len() ==> (#[trigger] h[j].name@) != name,
    ensures
        run_lookup(h, name) == 0,
    decreases h.len(),
{
    if h.len() > 0 {
        lemma_run_lookup_absent(h.drop_first(), name);
    }
}

/// Replacing an entry by one of the same name leaves every other name's
/// lookup unchanged.
pub proof fn lemma_run_lookup_update_other(h: Seq<RunEntry>, i: int, e: RunEntry, m: Seq<char>)
    requires
        0 <= i < h.len(),
        h[i].name@ == e.name@,
        m != e.name@,
    ensures
        run_lookup(h.update(i, e), m) == run_lookup(h, m),
    decreases i,
{
    let hu = h.update(i, e);
    if i == 0 {
        assert(hu.drop_first() =~= h.drop_first());
    } else {
        assert(hu.drop_first() =~= h.drop_first().update(i - 1, e));
        lemma_run_lookup_update_other(h.drop_first(), i - 1, e, m);
    }
}

/// Removing an entry of a different name leaves a name's lookup unchanged.
pub proof fn lemma_run_lookup_remove_other(h: Seq<RunEntry>, i: int, m: Seq<char>)
    requires
        0 <= i < h.len(),
        h[i].name@ != m,
    ensures
        run_lookup(h.remove(i), m) == run_lookup(h, m),
    decreases i,
{
    let hr = h.remove(i);
    if i == 0 {
        assert(hr =~= h.drop_first());
    } else {
        assert(hr.drop_first() =~= h.drop_first().remove(i - 1));
        lemma_run_lookup_remove_other(h.drop_first(), i - 1, m);
    }
}

/// Appending an entry of a different name leaves a name's lookup unchanged.
pub proof fn lemma_run_lookup_push_other(h: Seq<RunEntry>, e: RunEntry, m: Seq<char>)
    requires
        e.name@ != m,
    ensures
        run_lookup(h.push(e), m) == run_lookup(h, m),
    decreases h.len(),
{
    if h.len() == 0 {
        assert(h.push(e).drop_first() =~= h);
    } else {
        assert(h.push(e).drop_first() =~= h.drop_first().push(e));
        lemma_run_lookup_push_other(h.drop_first(), e, m);
    }
}

/// The engine's whole process-wide state, together with what is fixed about
/// the engine instance itself: whether it is reachable over IPC, whether its
/// database is loaded, its version, and how its index is configured.
pub struct Engine {
    /// Whether the engine's process can be reached over IPC at all.
    pub ipc_ok: bool,
    /// Whether the engine's database has finished loading.
    pub db_loaded: bool,
    /// Whether the engine runs as administrator.
    pub admin: bool,
    /// Whether the engine stores its settings under the user's
    /// application-data folder.
    pub appdata: bool,
    pub major: u32,
    pub minor: u32,
    pub revision: u32,
    pub build: u32,
    /// Raw target-machine code; 1 through 3 when the engine is reachable.
    pub machine: u32,
    /// One bit per sort order (bit `code - 1`): which sorts are fast.
    pub fast_sort_bits: u32,
    /// One bit per file-information kind (bit `code - 1`): which are
    /// indexed.
    pub file_info_bits: u32,
    pub search: SearchState,
    pub last_error: LastError,
    pub results: ResultList,
    pub run_history: Vec<RunEntry>,
}

impl Engine {
    pub open spec fn wf(self) -> bool {
        &&& self.last_error == LastError::EVERYTHING_OK || self.last_error
            == LastError::EVERYTHING_ERROR_IPC
        &&& self.ipc_ok ==> 1 <= self.machine <= 3
        &&& self.fast_sort_bits & ALWAYS_FAST_SORT_BITS == ALWAYS_FAST_SORT_BITS
        &&& self.search.wf()
        &&& self.results.wf()
        &&& run_names_unique(self.run_history@)
        &&& forall|i: int| 0 <= i < self.run_history@.len() ==> no_nul(
            (#[trigger] self.run_history@[i]).name@,
        )
    }

    /// What dropping the search configuration does in the engine: the
    /// parameters are reset as documented, the result list is freed, the
    /// last-error register is cleared; nothing else changes.
    pub open spec fn is_reset_of(self, pre: Engine) -> bool {
        &&& self.search.is_reset_of(pre.search)
        &&& self.results.is_empty_default()
        &&& self.last_error == LastError::EVERYTHING_OK
        &&& self.ipc_ok == pre.ipc_ok
        &&& self.db_loaded == pre.db_loaded
        &&& self.admin == pre.admin
        &&& self.appdata == pre.appdata
        &&& self.major == pre.major
        &&& self.minor == pre.minor
        &&& self.revision == pre.revision
        &&& self.build == pre.build
        &&& self.machine == pre.machine
        &&& self.fast_sort_bits == pre.fast_sort_bits
        &&& self.file_info_bits == pre.file_info_bits
        &&& self.run_history == pre.run_history
    }

    /// A model of an engine that is not reachable: every operation that
    /// crosses the IPC boundary will report [`crate::EverythingError::Ipc`].
    pub open spec fn is_fresh_offline(self) -> bool {
        &&& !self.ipc_ok
        &&& !self.db_loaded
        &&& !self.admin
        &&& !self.appdata
        &&& self.major == 0 && self.minor == 0 && self.revision == 0 && self.build == 0
        &&& self.machine == 0
        &&& self.fast_sort_bits == ALWAYS_FAST_SORT_BITS
        &&& self.file_info_bits == 0
        &&& self.search.is_default()
        &&& self.last_error == LastError::EVERYTHING_OK
        &&& self.results.is_empty_default()
        &&& self.run_history@.len() == 0
    }

    /// The model of an unreachable engine, in its documented default state.
    pub fn offline() -> (r: Engine)
        ensures
            r.is_fresh_offline(),
            r.wf(),
    {
        let r = Engine {
            ipc_ok: false,
            db_loaded: false,
            admin: false,
            appdata: false,
            major: 0,
            minor: 0,
            revision: 0,
            build: 0,
            machine: 0,
            fast_sort_bits: ALWAYS_FAST_SORT_BITS,
            file_info_bits: 0,
            search: SearchState::fresh(),
            last_error: LastError::EVERYTHING_OK,
            results: ResultList::empty(),
            run_history: Vec::new(),
        };
        proof {
            assert(ALWAYS_FAST_SORT_BITS & ALWAYS_FAST_SORT_BITS == ALWAYS_FAST_SORT_BITS)
                by (bit_vector);
        }
        r
    }
}

} // verus!
