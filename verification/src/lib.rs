//! Bulk export of a paginated search result: the rules and state machines
//! behind a sliced scroll, verified.
pub mod batch;
pub mod cli;
pub mod elastic;
pub mod error;
pub mod json;
pub mod pull;
pub mod query;
pub mod sink;
pub mod text;
pub mod update;
pub mod worker;
