//! The search configuration handle.
//!
//! At most one [`EverythingSearcher`] can be live at a time: the only way to
//! construct one is [`EverythingGlobal::searcher`], which consumes the
//! session, and the only way to get the session back is
//! [`EverythingSearcher::finish`], which performs the engine's full state
//! reset.  Every setter writes straight into the engine's process-wide
//! parameter set; nothing is buffered locally.

use vstd::prelude::*;

use crate::engine::Engine;
use crate::engine::ResultList;
use crate::engine::SearchState;
use crate::flags::RequestFlags;
use crate::marshal::no_nul;
use crate::order::sort_rows_by_path;
use crate::order::sorted_by_path;
use crate::reply::QueryReply;
use crate::reply::list_matches_reply;
use crate::results::EverythingResults;
use crate::session::EverythingGlobal;
use crate::sort::LastError;
use crate::sort::SortType;

verus! {

broadcast use crate::session::lemma_global_view;

/// The handle that holds the engine's one pending query request.
pub struct EverythingSearcher {
    pub(crate) session: EverythingGlobal,
}

impl View for EverythingSearcher {
    type V = Engine;

    closed spec fn view(&self) -> Engine {
        self.session@
    }
}

/// Within the crate, a searcher is exactly its session's engine model.
pub(crate) broadcast proof fn lemma_searcher_view(s: EverythingSearcher)
    ensures
        #[trigger] s@ == s.session@,
{
}

impl EverythingGlobal {
    /// Obtain the one search configuration handle.  The session is consumed,
    /// so a second live searcher cannot be constructed; it comes back from
    /// [`EverythingSearcher::finish`].
    pub fn searcher(self) -> (s: EverythingSearcher)
        requires
            self.wf(),
        ensures
            s.wf(),
            s@ == self@,
    {
        EverythingSearcher { session: self }
    }
}

impl EverythingSearcher {
    pub open spec fn wf(self) -> bool {
        self@.wf()
    }

    /// Set the search text for the next query; the engine holds its own
    /// copy.  Empty by default.
    pub fn set_search(&mut self, text: &str)
        requires
            old(self).wf(),
            no_nul(text@),
        ensures
            final(self).wf(),
            final(self)@.search.search@ == text@,
            final(self)@ == (Engine {
                search: (SearchState { search: final(self)@.search.search, ..old(self)@.search }),
                ..old(self)@
            }),
    {
        self.session.engine.search.search = text.to_owned();
    }

    /// Enable or disable matching against the full path. Disabled by
    /// default.
    pub fn set_match_path(&mut self, enable: bool)
        requires
            old(self).wf(),
        ensures
            final(self).wf(),
            final(self)@ == (Engine {
                search: (SearchState { match_path: enable, ..old(self)@.search }),
                ..old(self)@
            }),
    {
        self.session.engine.search.match_path = enable;
    }

    /// Enable or disable case-sensitive matching. Disabled by default.
    pub fn set_match_case(&mut self, enable: bool)
        requires
            old(self).wf(),
        ensures
            final(self).wf(),
            final(self)@ == (Engine {
                search: (SearchState { match_case: enable, ..old(self)@.search }),
                ..old(self)@
            }),
    {
        self.session.engine.search.match_case = enable;
    }

    /// Enable or disable whole-word matching. Disabled by default.
    pub fn set_match_whole_word(&mut self, enable: bool)
        requires
            old(self).wf(),
        ensures
            final(self).wf(),
            final(self)@ == (Engine {
                search: (SearchState { match_whole_word: enable, ..old(self)@.search }),
                ..old(self)@
            }),
    {
        self.session.engine.search.match_whole_word = enable;
    }

    /// Enable or disable regular-expression searching. Disabled by default.
    pub fn set_regex(&mut self, enable: bool)
        requires
            old(self).wf(),
        ensures
            final(self).wf(),
            final(self)@ == (Engine {
                search: (SearchState { regex: enable, ..old(self)@.search }),
                ..old(self)@
            }),
    {
        self.session.engine.search.regex = enable;
    }

    /// Cap the number of results the next query returns; the largest value
    /// (the default) means all results.
    pub fn set_max(&mut self, max_results: u32)
        requires
            old(self).wf(),
        ensures
            final(self).wf(),
            final(self)@ == (Engine {
                search: (SearchState { max_results, ..old(self)@.search }),
                ..old(self)@
            }),
    {
        self.session.engine.search.max_results = max_results;
    }

    /// Set the first result to return. 0 (the default) returns from the
    /// first available result.
    pub fn set_offset(&mut self, offset: u32)
        requires
            old(self).wf(),
        ensures
            final(self).wf(),
            final(self)@ == (Engine {
                search: (SearchState { offset, ..old(self)@.search }),
                ..old(self)@
            }),
    {
        self.session.engine.search.offset = offset;
    }

    /// Set the sort order for the next query. Name ascending by default;
    /// anything else opts the query into the newer protocol.
    pub fn set_sort(&mut self, sort_type: SortType)
        requires
            old(self).wf(),
        ensures
            final(self).wf(),
            final(self)@ == (Engine {
                search: (SearchState { sort: sort_type, ..old(self)@.search }),
                ..old(self)@
            }),
    {
        self.session.engine.search.sort = sort_type;
    }

    /// Set the requested-field bitmask for the next query.  Name and path
    /// by default; anything else opts the query into the newer protocol.
    /// Only defined field bits may be set.
    pub fn set_request_flags(&mut self, flags: RequestFlags)
        requires
            old(self).wf(),
            flags.spec_valid(),
        ensures
            final(self).wf(),
            final(self)@ == (Engine {
                search: (SearchState { request_flags: flags, ..old(self)@.search }),
                ..old(self)@
            }),
    {
        self.session.engine.search.request_flags = flags;
    }

    /// Set the distinguishing identifier carried by the next non-blocking
    /// query's reply message. 0 by default.
    pub fn set_reply_id(&mut self, reply_id: u32)
        requires
            old(self).wf(),
        ensures
            final(self).wf(),
            final(self)@ == (Engine {
                search: (SearchState { reply_id, ..old(self)@.search }),
                ..old(self)@
            }),
    {
        self.session.engine.search.reply_id = reply_id;
    }

    /// The search text currently set in the engine.
    pub fn get_search(&self) -> (r: String)
        requires
            self.wf(),
        ensures
            r@ == self@.search.search@,
    {
        self.session.engine.search.search.clone()
    }

    /// Whether full-path matching is currently enabled.
    pub fn get_match_path(&self) -> (r: bool)
        ensures
            r == self@.search.match_path,
    {
        self.session.engine.search.match_path
    }

    /// Whether case-sensitive matching is currently enabled.
    pub fn get_match_case(&self) -> (r: bool)
        ensures
            r == self@.search.match_case,
    {
        self.session.engine.search.match_case
    }

    /// Whether whole-word matching is currently enabled.
    pub fn get_match_whole_word(&self) -> (r: bool)
        ensures
            r == self@.search.match_whole_word,
    {
        self.session.engine.search.match_whole_word
    }

    /// Whether regular-expression searching is currently enabled.
    pub fn get_regex(&self) -> (r: bool)
        ensures
            r == self@.search.regex,
    {
        self.session.engine.search.regex
    }

    /// The current cap on returned results.
    pub fn get_max(&self) -> (r: u32)
        ensures
            r == self@.search.max_results,
    {
        self.session.engine.search.max_results
    }

    /// The current first-result offset.
    pub fn get_offset(&self) -> (r: u32)
        ensures
            r == self@.search.offset,
    {
        self.session.engine.search.offset
    }

    /// The sort order currently set in the engine.
    pub fn get_sort(&self) -> (r: SortType)
        ensures
            r == self@.search.sort,
    {
        self.session.engine.search.sort
    }

    /// The requested-field bitmask currently set in the engine.
    pub fn get_request_flags(&self) -> (r: RequestFlags)
        ensures
            r == self@.search.request_flags,
    {
        self.session.engine.search.request_flags
    }

    /// Execute a query with the current search state and take the result
    /// set handle.  The engine's answer - which only the real engine can
    /// compute - is handed in as `reply`, already constrained by the
    /// engine's documented contract; the search parameters themselves are
    /// not modified by a query.  When the engine is unreachable the answer
    /// is discarded and the engine is left with an empty result list, which
    /// is how the engine itself presents a failed query.
    pub fn query(self, reply: QueryReply) -> (r: EverythingResults)
        requires
            self.wf(),
            reply.wf(),
            reply.fits(self@.search),
        ensures
            r.wf(),
            r@.search == self@.search,
            self@.ipc_ok ==> r@ == (Engine {
                last_error: LastError::EVERYTHING_OK,
                results: r@.results,
                ..self@
            }) && list_matches_reply(r@.results, reply),
            !self@.ipc_ok ==> r@ == (Engine {
                last_error: LastError::EVERYTHING_ERROR_IPC,
                results: r@.results,
                ..self@
            }) && r@.results.is_empty_default(),
    {
        let EverythingSearcher { session } = self;
        let mut engine = session.into_engine();
        if engine.ipc_ok {
            engine.last_error = LastError::EVERYTHING_OK;
            engine.results = reply.into_list();
        } else {
            engine.last_error = LastError::EVERYTHING_ERROR_IPC;
            engine.results = ResultList::empty();
        }
        EverythingResults::from_owner(
            EverythingSearcher { session: EverythingGlobal::with_engine(engine) },
        )
    }

    /// Execute a query with the current search state and have the current
    /// results re-sorted by path, then file name, in place - the engine's
    /// expensive alternative to asking for a path sort up front with
    /// [`EverythingSearcher::set_sort`].
    pub fn _query_and_sort_by_path(self, reply: QueryReply) -> (r: EverythingResults)
        requires
            self.wf(),
            reply.wf(),
            reply.fits(self@.search),
        ensures
            r.wf(),
            r@.search == self@.search,
            self@.ipc_ok ==> r@ == (Engine {
                last_error: LastError::EVERYTHING_OK,
                results: r@.results,
                ..self@
            }) && sorted_by_path(r@.results.items@) && (exists|l0: ResultList|
                #[trigger] list_matches_reply(l0, reply) && r@.results.items@.to_multiset()
                    == l0.items@.to_multiset() && r@.results.sort == l0.sort && r@.results.flags
                    == l0.flags && r@.results.total_files == l0.total_files
                    && r@.results.total_folders == l0.total_folders),
            !self@.ipc_ok ==> r@ == (Engine {
                last_error: LastError::EVERYTHING_ERROR_IPC,
                results: r@.results,
                ..self@
            }) && r@.results.is_empty_default(),
    {
        let EverythingSearcher { session } = self;
        let mut engine = session.into_engine();
        if engine.ipc_ok {
            engine.last_error = LastError::EVERYTHING_OK;
            let list = reply.into_list();
            let ghost l0 = list;
            let ResultList { sort, flags, total_files, total_folders, items } = list;
            let sorted = sort_rows_by_path(items);
            proof {
                assert forall|i: int| 0 <= i < sorted@.len() implies (
                #[trigger] sorted@[i]).wf() by {
                    assert(l0.items@.contains(sorted@[i]));
                    let j = choose|j: int|
                        0 <= j < l0.items@.len() && l0.items@[j] == sorted@[i];
                    assert(l0.items@[j].wf());
                }
            }
            engine.results = ResultList { sort, flags, total_files, total_folders, items: sorted };
            proof {
                assert(list_matches_reply(l0, reply));
            }
        } else {
            engine.last_error = LastError::EVERYTHING_ERROR_IPC;
            engine.results = ResultList::empty();
        }
        EverythingResults::from_owner(
            EverythingSearcher { session: EverythingGlobal::with_engine(engine) },
        )
    }

    /// Release the search configuration handle and get the session back.
    /// This is the engine's full state reset: search text, matching
    /// switches, result window and reply routing return to their documented
    /// defaults, the result list and the last error are cleared, and any
    /// engine memory for them is freed.  The sort order, the requested-field
    /// bitmask and the run history are left as they are.
    pub fn finish(self) -> (g: EverythingGlobal)
        requires
            self.wf(),
        ensures
            g.wf(),
            g@.is_reset_of(self@),
    {
        let EverythingSearcher { session } = self;
        let mut engine = session.into_engine();
        engine.search.search = String::new();
        engine.search.match_path = false;
        engine.search.match_case = false;
        engine.search.match_whole_word = false;
        engine.search.regex = false;
        engine.search.max_results = u32::MAX;
        engine.search.offset = 0;
        engine.search.reply_window = 0;
        engine.search.reply_id = 0;
        engine.results = ResultList::empty();
        engine.last_error = LastError::EVERYTHING_OK;
        EverythingGlobal::with_engine(engine)
    }
}

/// Law: reading the sort order back after setting it yields exactly the
/// value that was set, for every engine state and every sort order.
pub proof fn law_sort_round_trip(pre: Engine, sort_type: SortType)
    ensures
        (Engine {
            search: (SearchState { sort: sort_type, ..pre.search }),
            ..pre
        }).search.sort == sort_type,
{
}

/// Law: reading the requested-field bitmask back after setting it yields
/// exactly the value that was set, for every engine state and every
/// bitmask.
pub proof fn law_request_flags_round_trip(pre: Engine, flags: RequestFlags)
    ensures
        (Engine {
            search: (SearchState { request_flags: flags, ..pre.search }),
            ..pre
        }).search.request_flags == flags,
{
}

} // verus!
