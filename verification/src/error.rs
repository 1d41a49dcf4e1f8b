//! The failures a run can meet.
use vstd::prelude::*;

verus! {

/// Why a request, a response, a write or the configuration was refused.
#[derive(Debug)]
pub enum PullError {
    /// The request failed. Where the service answered, with a status outside
    /// 200..=299, `status` holds it and `body` the answer's body as it came;
    /// where no answer came, `body` says why.
    Fetch { status: Option<u16>, body: String },
    /// A response body that is not the expected document.
    Parse(String),
    /// The destination refused a record.
    Write(String),
    /// The configuration cannot be used; no worker starts.
    Config(String),
}

} // verus!
