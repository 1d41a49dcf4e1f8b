//! What is settled once, before any worker starts.
use vstd::prelude::*;
use crate::batch::effective_batch;
use crate::cli::PullOpt;
use crate::error::PullError;
use crate::json::{is_object, json_of};
use crate::query::{declared_size, derive_batch_size, NOT_AN_OBJECT};
use crate::text::{pass_of, user_of, userpass};

verus! {

/// What is said of a run without slices.
pub const NO_SLICES: &'static str = "the slice count must be at least 1";

/// What a run is started with.
#[derive(Debug)]
pub struct Plan {
    /// The user that requests are sent as.
    pub user: String,
    /// The password, where the login holds one.
    pub pass: Option<String>,
    /// Whether the user named a login without a password and is to be asked
    /// for it.
    pub ask_password: bool,
    /// The page size of every request.
    pub batch: u64,
    /// The number of workers, and of batches that may wait for the sink.
    pub workers: u64,
}

/// The text of an optional login.
pub open spec fn login_of(user: Option<String>) -> Option<Seq<char>> {
    match user {
        Some(u) => Some(u@),
        None => None,
    }
}

/// Why a run cannot start, if it cannot: it has no slice, or it has several
/// and the query is no object, so that it cannot take their clauses.
pub open spec fn config_fault(slices: u64, query: crate::json::Json) -> Option<Seq<char>> {
    if slices == 0 {
        Some(NO_SLICES@)
    } else if slices > 1 && !(query is Object) {
        Some(NOT_AN_OBJECT@)
    } else {
        None
    }
}

/// Settles a run before it starts: refuses a configuration that cannot be
/// run, splits the login, and derives the page size from the requested
/// size, the query and the limit.
pub fn prepare(opt: &PullOpt, query: &serde_json::Value) -> (r: Result<Plan, PullError>)
    ensures
        match r {
            Ok(plan) => {
                &&& config_fault(opt.slice, json_of(*query)) is None
                &&& plan.workers == opt.slice
                &&& plan.batch == effective_batch(
                    opt.batch,
                    declared_size(json_of(*query)),
                    opt.limit,
                    opt.slice,
                )
                &&& plan.user@ == user_of(login_of(opt.user))
                &&& login_of(plan.pass) == pass_of(login_of(opt.user))
                &&& plan.ask_password == (opt.user is Some && plan.pass is None)
            },
            Err(PullError::Config(why)) => config_fault(opt.slice, json_of(*query)) == Some(why@),
            Err(_) => false,
        },
{
    if opt.slice == 0 {
        return Err(PullError::Config(String::from_str(NO_SLICES)));
    }
    if opt.slice > 1 && !is_object(query) {
        return Err(PullError::Config(String::from_str(NOT_AN_OBJECT)));
    }
    let ask = opt.user.is_some();
    let (user, pass) = userpass(opt.user.clone());
    let ask_password = ask && pass.is_none();
    let batch = derive_batch_size(opt.batch, query, opt.limit, opt.slice);
    Ok(Plan { user, pass, ask_password, batch, workers: opt.slice })
}

} // verus!
