//! A safe, verified interface to the "Everything" file-search engine.
//!
//! The engine itself is an external, closed-source service that lives in
//! another process and is reached over IPC; it keeps a single process-wide
//! parameter set and a single current result list.  This crate models that
//! process-wide state explicitly (see [`engine::Engine`]) and layers two
//! things on top of it:
//!
//! * a typed adaptation layer that turns the engine's raw conventions
//!   (tri-state booleans, "zero means success or failure, ask the last
//!   error", wide-character buffers, sentinel folder sizes) into exact
//!   `Result` contracts, and
//! * an ownership gate: the session handle [`EverythingGlobal`] yields at
//!   most one live [`EverythingSearcher`], which yields at most one live
//!   [`EverythingResults`], and each handle must be given back before its
//!   parent can be used again.  Exclusivity is enforced by ownership, not
//!   by runtime flags.
//!
//! What only the real engine can compute - the answer to a query - enters
//! through a [`reply::QueryReply`] value supplied by the caller; everything
//! the crate does with it is verified.

pub mod engine;
pub mod error;
pub mod flags;
pub mod future;
pub mod item;
pub mod marshal;
pub mod order;
pub mod raw;
pub mod reply;
pub mod results;
pub mod searcher;
pub mod session;
pub mod sort;

pub use engine::Engine;
pub use error::EverythingError;
pub use error::InvalidRequestError;
pub use flags::RequestFlags;
pub use flags::is_default_request_flags;
pub use future::QueryFuture;
pub use future::QueryPoll;
pub use item::EverythingItem;
pub use reply::QueryReply;
pub use reply::RawItem;
pub use results::EverythingResults;
pub use results::Iter;
pub use searcher::EverythingSearcher;
pub use session::EverythingGlobal;
pub use session::global;
pub use sort::FileInfoType;
pub use sort::LastError;
pub use sort::SortType;
pub use sort::TargetMachine;
pub use sort::is_default_sort_type;
pub use sort::should_use_query_version_2;
