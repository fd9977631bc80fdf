//! The non-blocking query, modeled as an explicit state machine.
//!
//! In blocking mode a query holds the calling thread until the engine
//! replies.  In non-blocking mode the query is posted with a distinguishing
//! reply identifier and a dedicated worker waits for the one window message
//! that carries it; when that message arrives the worker signals a shared
//! completion flag exactly once and wakes the suspended caller, which then
//! finds the result set installed.  The decisions of that protocol - what
//! counts as the completion signal, that it fires once, and that a
//! completed poll installs exactly what a blocking query would - live here
//! and are verified; the thread, window and wake-up plumbing they drive is
//! ordinary runtime code outside this crate.

use vstd::prelude::*;

use crate::engine::Engine;
use crate::engine::ResultList;
use crate::engine::SearchState;
use crate::reply::QueryReply;
use crate::reply::list_matches_reply;
use crate::results::EverythingResults;
use crate::searcher::EverythingSearcher;
use crate::sort::LastError;

verus! {

broadcast use crate::session::lemma_global_view, crate::searcher::lemma_searcher_view;

/// The window message the engine uses to hand a query reply over.
pub const WM_COPYDATA: u32 = 0x004A;

/// The reply identifier this crate assigns to its non-blocking queries.
pub const QUERY_REPLY_ID: u32 = 9527;

/// The worker's routing decision: a window message is the completion signal
/// exactly when it is the data-copy message carrying the expected reply
/// identifier; every other message belongs to default handling.
pub fn is_completion_signal(message: u32, carried_id: u32, expected_id: u32) -> (r: bool)
    ensures
        r == (message == WM_COPYDATA && carried_id == expected_id),
{
    message == WM_COPYDATA && carried_id == expected_id
}

/// What one poll of a pending query steps to.
pub enum QueryPoll {
    /// The completion flag was not yet signaled; the future is handed back
    /// to be polled again after the next wake-up.
    Pending(QueryFuture),
    /// The completion flag was signaled: the result set is ready.
    Ready(EverythingResults),
}

/// A posted, not yet completed query: the searcher that posted it, the
/// engine's answer in flight, and the shared completion flag the worker
/// signals.
pub struct QueryFuture {
    owner: EverythingSearcher,
    reply: QueryReply,
    completed: bool,
}

impl QueryFuture {
    /// The engine state as of the post.
    pub closed spec fn spec_engine(self) -> Engine {
        self.owner@
    }

    /// The engine's answer in flight.
    pub closed spec fn spec_reply(self) -> QueryReply {
        self.reply
    }

    /// Whether the worker has signaled completion.
    pub closed spec fn spec_completed(self) -> bool {
        self.completed
    }

    pub open spec fn wf(self) -> bool {
        &&& self.spec_engine().wf()
        &&& self.spec_reply().wf()
        &&& self.spec_reply().fits(self.spec_engine().search)
    }

    /// Post the query: the searcher is consumed, the distinguishing reply
    /// identifier is written into the engine's parameters, and the
    /// completion flag starts unsignaled.  As with a blocking query, the
    /// engine's answer is handed in as a value.
    pub fn new(searcher: EverythingSearcher, reply: QueryReply) -> (f: QueryFuture)
        requires
            searcher.wf(),
            reply.wf(),
            reply.fits(searcher@.search),
        ensures
            f.wf(),
            !f.spec_completed(),
            f.spec_reply() == reply,
            f.spec_engine() == (Engine {
                search: (SearchState { reply_id: QUERY_REPLY_ID, ..searcher@.search }),
                ..searcher@
            }),
    {
        let mut searcher = searcher;
        searcher.set_reply_id(QUERY_REPLY_ID);
        QueryFuture { owner: searcher, reply, completed: false }
    }

    /// The worker's completion signal.  The first signal flips the flag and
    /// reports that it did; a signal on an already-completed future changes
    /// nothing and reports that it was not the first - so completion is
    /// signaled exactly once however often this is called.
    pub fn signal(&mut self) -> (first: bool)
        requires
            old(self).wf(),
        ensures
            final(self).wf(),
            first == !old(self).spec_completed(),
            final(self).spec_completed(),
            final(self).spec_engine() == old(self).spec_engine(),
            final(self).spec_reply() == old(self).spec_reply(),
    {
        let first = !self.completed;
        self.completed = true;
        first
    }

    /// One poll of the suspended caller.  Before the signal the future is
    /// handed back unchanged; after it, the query completes exactly as the
    /// blocking [`crate::EverythingSearcher::query`] would with the same
    /// parameters and the same engine answer.
    pub fn poll(self) -> (r: QueryPoll)
        requires
            self.wf(),
        ensures
            !self.spec_completed() ==> (r matches QueryPoll::Pending(f) && f == self),
            self.spec_completed() ==> (r matches QueryPoll::Ready(res) && {
                &&& res.wf()
                &&& res@.search == self.spec_engine().search
                &&& self.spec_engine().ipc_ok ==> res@ == (Engine {
                    last_error: LastError::EVERYTHING_OK,
                    results: res@.results,
                    ..self.spec_engine()
                }) && list_matches_reply(res@.results, self.spec_reply())
                &&& !self.spec_engine().ipc_ok ==> res@ == (Engine {
                    last_error: LastError::EVERYTHING_ERROR_IPC,
                    results: res@.results,
                    ..self.spec_engine()
                }) && res@.results.is_empty_default()
            }),
    {
        if self.completed {
            let QueryFuture { owner, reply, completed: _ } = self;
            QueryPoll::Ready(owner.query(reply))
        } else {
            QueryPoll::Pending(self)
        }
    }
}

/// Law: a completed non-blocking query yields a result set that agrees with
/// what a blocking query with identical parameters and the same engine
/// answer would install - same visible count, same totals, same fulfilled
/// sort order and bitmask.
pub proof fn law_async_matches_sync(l1: ResultList, l2: ResultList, reply: QueryReply)
    requires
        list_matches_reply(l1, reply),
        list_matches_reply(l2, reply),
    ensures
        l1.items@.len() == l2.items@.len(),
        l1.total_files == l2.total_files,
        l1.total_folders == l2.total_folders,
        l1.sort == l2.sort,
        l1.flags == l2.flags,
{
}

} // verus!
