//! The logic of an asynchronous resolver over the system `getaddrinfo(3)` and
//! `getnameinfo(3)` calls, with contracts proved by Verus.
//!
//! The two calls block, so a resolver runs them on worker threads of its own.
//! How many threads may run is governed by two limits:
//!
//! - **Soft limit**: the number of workers that run under normal conditions.
//! - **Hard limit**: the absolute ceiling.
//!
//! A lookup takes a soft permit and then a hard permit before it starts a
//! worker. A worker that runs for longer than
//! [`ResolverConfig::stall_threshold`](config::ResolverConfig) gives its soft
//! permit back early and keeps its hard permit until it exits. A lookup that
//! cannot block (numeric host, numeric service) runs on the calling task and
//! takes no permit.
//!
//! The crate holds every decision of the resolver and none of its waiting: a
//! lookup is a [`Call`](resolver::Call) that names the next thing to do and is
//! told what came of it. Whoever drives it owns the clock, the semaphores'
//! queues, the threads and the system calls.

pub mod codes;
pub mod config;
pub mod error;
pub mod ffi;
pub mod laws;
pub mod limits;
pub mod resolver;
pub mod text;
pub mod time;
pub mod types;

pub use config::ResolverConfig;
pub use error::ResolveError;
pub use resolver::SystemResolver;
pub use time::Duration;
pub use types::{
    AddrInfo, AddrInfoHints, AddressFamily, AiFlags, NiFlags, Protocol, ResolvedNames, SockType,
};
