//! Admission control and caching for a URL-shortening service.
//!
//! The crate holds the decisions of the service and none of its I/O: a
//! sliding-window rate limiter per client address, a cache protocol that is
//! driven by handing it the replies of the remote key/value service, and the
//! two request flows that compose them with the persistent store.

pub mod cache;
pub mod clock;
pub mod domain;
pub mod handlers;
pub mod history;
pub mod rate_limit;
pub mod rehearsal;
pub mod strings;
