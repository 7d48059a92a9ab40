//! Typed HTTP API client helpers: classification of a response into a success
//! body or one of a closed set of errors, narrowing of an error against an
//! expected status, and a few small companions (typed identifiers, slugs,
//! byte sizes, cache counters and locations, reports of failed tests).

pub mod cache;
pub mod classify;
pub mod client;
pub mod context;
pub mod error;
pub mod format;
pub mod ids;
pub mod prelude;
pub mod request;
pub mod status;
pub mod strings;
pub mod test_error;
pub mod text;
