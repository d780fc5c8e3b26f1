//! The decision core of a translation gateway: which engine to ask next,
//! when the cache is read and written, and what a request is answered with.
//!
//! The library performs no input or output. A lookup is a small state
//! machine: it names the next action, the caller performs it and hands
//! back what came of it.
//!
//! - [`model`] holds the mathematical model that the contracts speak of.
//! - [`catalog`] holds the engines in fallback order, and reads them from
//!   a listing.
//! - [`engine`] builds the arguments of an invocation and reads its output.
//! - [`fallback`] moves the search from one engine to the next.
//! - [`lookup`] is the cached lookup itself.
//! - [`cache`] builds the commands for the cache store.
//! - [`route`] reads request paths and shapes replies.
//! - [`run`] and [`store`] state and prove what holds of whole lookups,
//!   alone and one after the other.

pub mod cache;
pub mod catalog;
pub mod engine;
pub mod fallback;
pub mod lookup;
pub mod model;
pub mod route;
pub mod run;
pub mod store;
