//! The result set handle.
//!
//! At most one [`EverythingResults`] can be live at a time: it is produced
//! only by [`crate::EverythingSearcher::query`], which consumes the
//! searcher, and [`EverythingResults::finish`] gives the searcher back.
//! Releasing a result set makes no call into the engine and changes nothing
//! in it - the engine has no per-result-set cleanup - so the searcher can be
//! reconfigured and re-queried.  The separate file and folder counters are
//! defined only under the engine's older query protocol; under the newer
//! one they fail without consulting the engine at all.

use vstd::prelude::*;

use crate::engine::Engine;
use crate::engine::ResultRow;
use crate::error::EverythingError;
use crate::flags::RequestFlags;
use crate::item::EverythingItem;
use crate::searcher::EverythingSearcher;
use crate::sort::SortType;
use crate::sort::should_use_query_version_2;
use crate::sort::spec_query_version_2;

verus! {

broadcast use crate::session::lemma_global_view, crate::searcher::lemma_searcher_view;

/// How many of these rows are files.
pub open spec fn count_files(rows: Seq<ResultRow>) -> int
    decreases rows.len(),
{
    if rows.len() == 0 {
        0
    } else {
        count_files(rows.drop_last()) + if rows.last().is_folder {
            0int
        } else {
            1int
        }
    }
}

/// How many of these rows are folders (volumes included).
pub open spec fn count_folders(rows: Seq<ResultRow>) -> int
    decreases rows.len(),
{
    if rows.len() == 0 {
        0
    } else {
        count_folders(rows.drop_last()) + if rows.last().is_folder {
            1int
        } else {
            0int
        }
    }
}

/// The answer to the most recent query, scoped to the searcher that ran it.
pub struct EverythingResults {
    pub(crate) owner: EverythingSearcher,
}

impl View for EverythingResults {
    type V = Engine;

    closed spec fn view(&self) -> Engine {
        self.owner@
    }
}

/// An iterator over the visible results, handing out one self-contained
/// item per position.
pub struct Iter {
    pub(crate) next_index: u32,
    pub(crate) length: u32,
    pub(crate) request_flags: RequestFlags,
    pub(crate) rows: Vec<ResultRow>,
}

/// An owned copy of a row vector.
fn duplicate_rows(rows: &Vec<ResultRow>) -> (r: Vec<ResultRow>)
    ensures
        r@ == rows@,
{
    let mut out: Vec<ResultRow> = Vec::new();
    let mut i: usize = 0;
    while i < rows.len()
        invariant
            i <= rows@.len(),
            out@.len() == i,
            forall|j: int| 0 <= j < i ==> out@[j] == rows@[j],
        decreases rows@.len() - i,
    {
        out.push(rows[i].duplicate());
        i += 1;
    }
    proof {
        assert(out@ =~= rows@);
    }
    out
}

impl EverythingResults {
    pub open spec fn wf(self) -> bool {
        self@.wf()
    }

    pub(crate) fn from_owner(owner: EverythingSearcher) -> (r: EverythingResults)
        ensures
            r@ == owner@,
    {
        EverythingResults { owner }
    }

    /// The number of visible results: the logical length of the set, and
    /// the bound for every valid item index.
    pub fn len(&self) -> (r: u32)
        requires
            self.wf(),
        ensures
            r == self@.results.items@.len(),
    {
        self.owner.session.engine.results.items.len() as u32
    }

    /// The number of visible file and folder results, defined under both
    /// query protocols; 0 is a valid answer.
    pub fn num(&self) -> (r: u32)
        requires
            self.wf(),
        ensures
            r == self@.results.items@.len(),
    {
        self.len()
    }

    /// The requested-field bitmask the engine actually fulfilled, which may
    /// differ from what was asked.
    pub fn request_flags(&self) -> (r: RequestFlags)
        ensures
            r == self@.results.flags,
    {
        self.owner.session.engine.results.flags
    }

    /// The sort order the engine actually fulfilled, which may differ from
    /// what was asked.
    pub fn sort_type(&self) -> (r: SortType)
        ensures
            r == self@.results.sort,
    {
        self.owner.session.engine.results.sort
    }

    /// Whether this result set lives under the engine's newer query
    /// protocol: it does exactly when its fulfilled bitmask or sort order is
    /// not the default.
    pub fn is_query_version_2(&self) -> (r: bool)
        ensures
            r == spec_query_version_2(self@.results.flags, self@.results.sort),
    {
        should_use_query_version_2(self.request_flags(), self.sort_type())
    }

    /// The number of visible file results.  Defined only under the older
    /// query protocol: under the newer one this fails up front, without
    /// consulting the engine, rather than returning a misleading number.
    pub fn num_files(&self) -> (r: Result<u32, EverythingError>)
        requires
            self.wf(),
        ensures
            spec_query_version_2(self@.results.flags, self@.results.sort) ==> r == Err::<
                u32,
                EverythingError,
            >(EverythingError::UnsupportedInQueryVersion2),
            !spec_query_version_2(self@.results.flags, self@.results.sort) ==> (r matches Ok(c)
                && c == count_files(self@.results.items@)),
    {
        if self.is_query_version_2() {
            Err(EverythingError::UnsupportedInQueryVersion2)
        } else {
            let rows = &self.owner.session.engine.results.items;
            let mut count: u32 = 0;
            let mut i: usize = 0;
            while i < rows.len()
                invariant
                    i <= rows@.len(),
                    rows@.len() <= u32::MAX,
                    count == count_files(rows@.subrange(0, i as int)),
                    count <= i,
                decreases rows@.len() - i,
            {
                if !rows[i].is_folder {
                    count += 1;
                }
                proof {
                    assert(rows@.subrange(0, i + 1).drop_last() =~= rows@.subrange(0, i as int));
                }
                i += 1;
            }
            proof {
                assert(rows@.subrange(0, rows@.len() as int) =~= rows@);
            }
            Ok(count)
        }
    }

    /// The number of visible folder results, volumes included.  Defined
    /// only under the older query protocol.
    pub fn num_folders(&self) -> (r: Result<u32, EverythingError>)
        requires
            self.wf(),
        ensures
            spec_query_version_2(self@.results.flags, self@.results.sort) ==> r == Err::<
                u32,
                EverythingError,
            >(EverythingError::UnsupportedInQueryVersion2),
            !spec_query_version_2(self@.results.flags, self@.results.sort) ==> (r matches Ok(c)
                && c == count_folders(self@.results.items@)),
    {
        if self.is_query_version_2() {
            Err(EverythingError::UnsupportedInQueryVersion2)
        } else {
            let rows = &self.owner.session.engine.results.items;
            let mut count: u32 = 0;
            let mut i: usize = 0;
            while i < rows.len()
                invariant
                    i <= rows@.len(),
                    rows@.len() <= u32::MAX,
                    count == count_folders(rows@.subrange(0, i as int)),
                    count <= i,
                decreases rows@.len() - i,
            {
                if rows[i].is_folder {
                    count += 1;
                }
                proof {
                    assert(rows@.subrange(0, i + 1).drop_last() =~= rows@.subrange(0, i as int));
                }
                i += 1;
            }
            proof {
                assert(rows@.subrange(0, rows@.len() as int) =~= rows@);
            }
            Ok(count)
        }
    }

    /// The total number of file results before the offset and the cap were
    /// applied.  Defined only under the older query protocol.
    pub fn total_files(&self) -> (r: Result<u32, EverythingError>)
        ensures
            spec_query_version_2(self@.results.flags, self@.results.sort) ==> r == Err::<
                u32,
                EverythingError,
            >(EverythingError::UnsupportedInQueryVersion2),
            !spec_query_version_2(self@.results.flags, self@.results.sort) ==> r == Ok::<
                u32,
                EverythingError,
            >(self@.results.total_files),
    {
        if self.is_query_version_2() {
            Err(EverythingError::UnsupportedInQueryVersion2)
        } else {
            Ok(self.owner.session.engine.results.total_files)
        }
    }

    /// The total number of folder results before the offset and the cap
    /// were applied.  Defined only under the older query protocol.
    pub fn total_folders(&self) -> (r: Result<u32, EverythingError>)
        ensures
            spec_query_version_2(self@.results.flags, self@.results.sort) ==> r == Err::<
                u32,
                EverythingError,
            >(EverythingError::UnsupportedInQueryVersion2),
            !spec_query_version_2(self@.results.flags, self@.results.sort) ==> r == Ok::<
                u32,
                EverythingError,
            >(self@.results.total_folders),
    {
        if self.is_query_version_2() {
            Err(EverythingError::UnsupportedInQueryVersion2)
        } else {
            Ok(self.owner.session.engine.results.total_folders)
        }
    }

    /// The total number of results before the offset and the cap were
    /// applied; defined under both query protocols.
    pub fn total(&self) -> (r: u32)
        requires
            self.wf(),
        ensures
            r == self@.results.total_files + self@.results.total_folders,
    {
        self.owner.session.engine.results.total_files
            + self.owner.session.engine.results.total_folders
    }

    /// The item at a zero-based position, if it is within the visible
    /// results.
    pub fn at(&self, index: u32) -> (r: Option<EverythingItem>)
        requires
            self.wf(),
        ensures
            (index < self@.results.items@.len()) <==> r is Some,
            r matches Some(it) ==> it.spec_index() == index && it.spec_flags()
                == self@.results.flags && it.spec_row() == self@.results.items@[index as int]
                && it.wf(),
    {
        let rows = &self.owner.session.engine.results.items;
        if (index as usize) < rows.len() {
            Some(
                EverythingItem::make(
                    index,
                    self.owner.session.engine.results.flags,
                    rows[index as usize].duplicate(),
                ),
            )
        } else {
            None
        }
    }

    /// An iterator over the visible results.
    pub fn iter(&self) -> (r: Iter)
        requires
            self.wf(),
        ensures
            r.wf(),
            r.spec_next_index() == 0,
            r.spec_length() == self@.results.items@.len(),
            r.spec_flags() == self@.results.flags,
            r.spec_rows() == self@.results.items@,
    {
        Iter {
            next_index: 0,
            length: self.len(),
            request_flags: self.request_flags(),
            rows: duplicate_rows(&self.owner.session.engine.results.items),
        }
    }

    /// Release the result set handle and get the searcher back.  No engine
    /// call is made and nothing in the engine changes - in particular the
    /// search parameters and search text stay exactly as they were - so the
    /// searcher may be reconfigured and re-queried.
    pub fn finish(self) -> (s: EverythingSearcher)
        ensures
            s@ == self@,
    {
        self.owner
    }
}

impl Iter {
    pub closed spec fn spec_next_index(self) -> u32 {
        self.next_index
    }

    pub closed spec fn spec_length(self) -> u32 {
        self.length
    }

    pub closed spec fn spec_flags(self) -> RequestFlags {
        self.request_flags
    }

    pub closed spec fn spec_rows(self) -> Seq<ResultRow> {
        self.rows@
    }

    pub open spec fn wf(self) -> bool {
        &&& self.spec_length() == self.spec_rows().len()
        &&& self.spec_next_index() <= self.spec_length()
        &&& forall|i: int| 0 <= i < self.spec_rows().len() ==> (#[trigger] self.spec_rows()[i]).wf()
    }

    /// The next item, or nothing once the visible results are exhausted.
    pub fn next(&mut self) -> (r: Option<EverythingItem>)
        requires
            old(self).wf(),
        ensures
            final(self).wf(),
            final(self).spec_length() == old(self).spec_length(),
            final(self).spec_flags() == old(self).spec_flags(),
            final(self).spec_rows() == old(self).spec_rows(),
            old(self).spec_next_index() < old(self).spec_length() ==> (r matches Some(it)
                && it.spec_index() == old(self).spec_next_index()
                && it.spec_flags() == old(self).spec_flags()
                && it.spec_row() == old(self).spec_rows()[old(self).spec_next_index() as int]
                && final(self).spec_next_index() == old(self).spec_next_index() + 1),
            old(self).spec_next_index() >= old(self).spec_length() ==> (r is None
                && *final(self) == *old(self)),
    {
        if self.next_index < self.length {
            let index = self.next_index;
            self.next_index = index + 1;
            Some(
                EverythingItem::make(
                    index,
                    self.request_flags,
                    self.rows[index as usize].duplicate(),
                ),
            )
        } else {
            None
        }
    }

    /// How many items remain: exact, as a lower and upper bound.
    pub fn size_hint(&self) -> (r: (usize, Option<usize>))
        requires
            self.wf(),
        ensures
            r.0 == self.spec_length() - self.spec_next_index(),
            r.1 == Some(r.0),
    {
        let rest = (self.length - self.next_index) as usize;
        (rest, Some(rest))
    }

    /// Skip `n` items and hand out the one after them, or exhaust the
    /// iterator if that runs past the visible results.
    pub fn nth(&mut self, n: usize) -> (r: Option<EverythingItem>)
        requires
            old(self).wf(),
            old(self).spec_next_index() + n <= u32::MAX,
        ensures
            final(self).wf(),
            final(self).spec_length() == old(self).spec_length(),
            final(self).spec_flags() == old(self).spec_flags(),
            final(self).spec_rows() == old(self).spec_rows(),
            old(self).spec_next_index() + n < old(self).spec_length() ==> (r matches Some(it)
                && it.spec_index() == old(self).spec_next_index() + n
                && it.spec_flags() == old(self).spec_flags()
                && it.spec_row() == old(self).spec_rows()[old(self).spec_next_index() + n]
                && final(self).spec_next_index() == old(self).spec_next_index() + n + 1),
            old(self).spec_next_index() + n >= old(self).spec_length() ==> (r is None
                && final(self).spec_next_index() == old(self).spec_length()),
    {
        let index = self.next_index + (n as u32);
        if index < self.length {
            self.next_index = index + 1;
            Some(
                EverythingItem::make(
                    index,
                    self.request_flags,
                    self.rows[index as usize].duplicate(),
                ),
            )
        } else {
            self.next_index = self.length;
            None
        }
    }
}

} // verus!
