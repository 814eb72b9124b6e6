//! A freshness-aware local mirror of user records and of an on-air catalog.
//!
//! The library holds the decisions: when a record is stale, how requests for
//! one identity are merged into one piece of work, how a user's timeline is
//! walked back page by page, how a profile is merged into the stored record,
//! and when a catalog payload is written. Fetching, reading documents and
//! running tasks are left to the caller, which hands the library plain values.
use vstd::prelude::*;

pub mod clock;
pub mod coalescer;
pub mod config;
pub mod fresh;
pub mod names;
pub mod onair;
pub mod page;
pub mod refresh;
pub mod scheduler;
pub mod store;
pub mod text;
pub mod timeline;
pub mod uid;
pub mod user;
