//! The values a pull is configured with.
use vstd::prelude::*;

verus! {

/// `std::path::PathBuf`, carried as it is; nothing is read from it.
#[verifier::external_type_specification]
#[verifier::external_body]
pub struct ExPathBuf(std::path::PathBuf);

/// What a pull needs to know: where the service is, what to ask, how to
/// split the work, and where the records go.
#[derive(Debug)]
pub struct PullOpt {
    /// Base URL of the service.
    pub host: String,
    /// `user` or `user:password` for HTTP basic authorization.
    pub user: Option<String>,
    /// Index name or alias.
    pub index: String,
    /// Path of the file that holds the query body.
    pub query: Option<std::path::PathBuf>,
    /// Number of slices, at least one.
    pub slice: u64,
    /// Page size; without it the query's own `size` is used.
    pub batch: Option<u64>,
    /// Most records to write, over all slices.
    pub limit: Option<u64>,
    /// Path of the output.
    pub output: std::path::PathBuf,
    /// Time-to-live of the scroll session.
    pub ttl: String,
}

} // verus!
