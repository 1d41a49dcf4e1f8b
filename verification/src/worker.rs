//! One slice of a pull: the requests it sends and the states it moves
//! through, from its first page to its end.
//!
//! The worker decides; whoever runs it performs the requests and hands back
//! what came of them. A page that arrives while the stop flag is set is not
//! passed on: the flag is looked at once for each page, before the page is
//! emitted.
use vstd::prelude::*;
use crate::elastic::Hit;
use crate::error::PullError;
use crate::json::json_of;
use crate::query::{continuation, inject_query, scroll_body, sliced_query, NOT_AN_OBJECT};
use crate::text::{decimal, decimal_text, detail_of, error_detail};

verus! {

/// What is said to a worker that is asked to start a second time.
pub const ALREADY_STARTED: &'static str = "the worker has already started";

/// Where a worker stands.
#[derive(Clone, Copy, Debug, PartialEq, Eq, Structural)]
pub enum WorkerState {
    /// Nothing sent yet.
    Starting,
    /// The search request is out; its page is awaited.
    FetchingFirstPage,
    /// A page has been passed on; the next is to be asked for.
    Draining,
    /// A continuation request is out; its page is awaited.
    FetchingNextPage,
    /// The slice is exhausted, or the run was stopped.
    Finished,
    /// A request or a response failed.
    Failed,
}

/// What can happen to a worker.
pub enum WorkerEvent {
    /// The search is asked of it; `accepted` tells whether the query could
    /// take the slice's clause.
    Start { accepted: bool },
    /// The request for the next page is asked of it.
    Continue,
    /// A page arrived, empty or not, with the stop flag as read on arrival.
    Page { empty: bool, cancelled: bool },
    /// The request, or the decoding of its answer, failed.
    Failure,
}

/// One request to the service.
pub struct Request {
    pub url: String,
    /// Query parameters, as name and value.
    pub params: Vec<(String, String)>,
    pub body: serde_json::Value,
}

/// A batch of records on its way to the sink, with the total that the
/// service reported for the slice.
#[derive(Debug)]
pub struct Batch {
    pub docs: Vec<Hit>,
    pub total: u64,
}

/// One slice's worker.
pub struct SliceWorker {
    /// Number of slices of the run.
    pub slices: u64,
    /// This slice, counted from zero.
    pub slice_id: u64,
    pub state: WorkerState,
    /// The cursor of the page received last.
    pub cursor: String,
}

/// A state that nothing leaves.
pub open spec fn is_terminal(s: WorkerState) -> bool {
    s == WorkerState::Finished || s == WorkerState::Failed
}

/// A state in which a page is awaited.
pub open spec fn is_fetching(s: WorkerState) -> bool {
    s == WorkerState::FetchingFirstPage || s == WorkerState::FetchingNextPage
}

/// The state that follows `s` on `e`. An event that `s` does not await
/// changes nothing.
pub open spec fn next_state(s: WorkerState, e: WorkerEvent) -> WorkerState {
    match (s, e) {
        (WorkerState::Starting, WorkerEvent::Start { accepted: true }) => WorkerState::FetchingFirstPage,
        (WorkerState::Starting, WorkerEvent::Start { accepted: false }) => WorkerState::Failed,
        (WorkerState::Draining, WorkerEvent::Continue) => WorkerState::FetchingNextPage,
        (WorkerState::FetchingFirstPage, WorkerEvent::Page { empty, cancelled }) => if cancelled || empty {
            WorkerState::Finished
        } else {
            WorkerState::Draining
        },
        (WorkerState::FetchingNextPage, WorkerEvent::Page { empty, cancelled }) => if cancelled || empty {
            WorkerState::Finished
        } else {
            WorkerState::Draining
        },
        (WorkerState::FetchingFirstPage, WorkerEvent::Failure) => WorkerState::Failed,
        (WorkerState::FetchingNextPage, WorkerEvent::Failure) => WorkerState::Failed,
        _ => s,
    }
}

/// Whether `e` in state `s` passes a batch on to the sink.
pub open spec fn emits(s: WorkerState, e: WorkerEvent) -> bool {
    is_fetching(s) && e == (WorkerEvent::Page { empty: false, cancelled: false })
}

/// The state after a run of events.
pub open spec fn state_after(s: WorkerState, events: Seq<WorkerEvent>) -> WorkerState
    decreases events.len(),
{
    if events.len() == 0 {
        s
    } else {
        next_state(state_after(s, events.drop_last()), events.last())
    }
}

/// The number of batches passed on during a run of events.
pub open spec fn emitted(s: WorkerState, events: Seq<WorkerEvent>) -> nat
    decreases events.len(),
{
    if events.len() == 0 {
        0
    } else {
        emitted(s, events.drop_last()) + if emits(state_after(s, events.drop_last()), events.last()) {
            1nat
        } else {
            0nat
        }
    }
}

/// The URL of the search that opens a scroll on an index.
pub open spec fn search_url(host: Seq<char>, index: Seq<char>) -> Seq<char> {
    host + "/"@ + index + "/_search"@
}

/// The URL that continues a scroll.
pub open spec fn scroll_url(host: Seq<char>) -> Seq<char> {
    host + "/_search/scroll"@
}

/// The line that reports a worker's failure: a label that tells a failed
/// first fetch from a first page that could not be read and from any later
/// failure, the worker's number counted from one, and what the error says.
pub open spec fn failure_report(s: WorkerState, slice_id: u64, e: PullError) -> Seq<char> {
    let label = if s == WorkerState::FetchingFirstPage {
        match e {
            PullError::Fetch { .. } => "Fetch error["@,
            PullError::Parse(_) => "Parse error["@,
            _ => "Error["@,
        }
    } else {
        "Error["@
    };
    label + decimal((slice_id + 1) as nat) + "]: "@ + detail_of(e)
}

impl SliceWorker {
    /// A slice is one of the run's slices.
    pub open spec fn wf(&self) -> bool {
        self.slice_id < self.slices
    }

    /// A worker for slice `slice_id` of `slices`, about to start.
    pub fn new(slices: u64, slice_id: u64) -> (w: SliceWorker)
        requires
            slice_id < slices,
        ensures
            w.wf(),
            w.slices == slices,
            w.slice_id == slice_id,
            w.state == WorkerState::Starting,
            w.cursor@ == Seq::<char>::empty(),
    {
        SliceWorker { slices, slice_id, state: WorkerState::Starting, cursor: String::new() }
    }

    /// The number under which the worker reports, counted from one.
    pub fn job_id(&self) -> (r: u64)
        requires
            self.wf(),
        ensures
            r == self.slice_id + 1,
    {
        self.slice_id + 1
    }

    /// Whether the worker has come to its end.
    pub fn is_done(&self) -> (r: bool)
        ensures
            r == is_terminal(self.state),
    {
        match self.state {
            WorkerState::Finished => true,
            WorkerState::Failed => true,
            _ => false,
        }
    }

    /// The search that opens the slice's scroll: the query with the slice's
    /// clause, posted to the index with the time-to-live and the page size.
    /// Only a worker that is starting sends it; a query that cannot take the
    /// clause fails the worker before anything is sent.
    pub fn first_request(
        &mut self,
        host: &str,
        index: &str,
        ttl: &str,
        batch: u64,
        query: serde_json::Value,
    ) -> (r: Result<Request, PullError>)
        requires
            old(self).wf(),
        ensures
            final(self).wf(),
            final(self).slices == old(self).slices,
            final(self).slice_id == old(self).slice_id,
            final(self).cursor == old(self).cursor,
            final(self).state == next_state(
                old(self).state,
                WorkerEvent::Start { accepted: r is Ok },
            ),
            match r {
                Ok(req) => {
                    &&& old(self).state == WorkerState::Starting
                    &&& sliced_query(old(self).slices, old(self).slice_id, json_of(query)) == Some(
                        json_of(req.body),
                    )
                    &&& req.url@ == search_url(host@, index@)
                    &&& req.params@.len() == 2
                    &&& req.params@[0].0@ == "scroll"@
                    &&& req.params@[0].1@ == ttl@
                    &&& req.params@[1].0@ == "size"@
                    &&& req.params@[1].1@ == decimal(batch as nat)
                },
                Err(PullError::Config(why)) => if old(self).state == WorkerState::Starting {
                    &&& sliced_query(old(self).slices, old(self).slice_id, json_of(query)) is None
                    &&& why@ == NOT_AN_OBJECT@
                } else {
                    why@ == ALREADY_STARTED@
                },
                Err(_) => false,
            },
    {
        match self.state {
            WorkerState::Starting => {},
            _ => {
                return Err(PullError::Config(String::from_str(ALREADY_STARTED)));
            },
        }
        match inject_query(self.slices, self.slice_id, query) {
            Ok(body) => {
                let url = String::from_str(host).concat("/").concat(index).concat("/_search");
                let mut params: Vec<(String, String)> = Vec::new();
                params.push((String::from_str("scroll"), String::from_str(ttl)));
                params.push((String::from_str("size"), decimal_text(batch)));
                self.state = WorkerState::FetchingFirstPage;
                Ok(Request { url, params, body })
            },
            Err(e) => {
                self.state = WorkerState::Failed;
                Err(e)
            },
        }
    }

    /// The request for the page after the one passed on last: time-to-live
    /// and cursor, posted to the scroll endpoint, without parameters. `None`
    /// unless a page has just been passed on.
    pub fn next_request(&mut self, host: &str, ttl: &str) -> (r: Option<Request>)
        requires
            old(self).wf(),
        ensures
            final(self).wf(),
            final(self).slices == old(self).slices,
            final(self).slice_id == old(self).slice_id,
            final(self).cursor == old(self).cursor,
            final(self).state == next_state(old(self).state, WorkerEvent::Continue),
            r is Some <==> old(self).state == WorkerState::Draining,
            match r {
                Some(req) => {
                    &&& req.url@ == scroll_url(host@)
                    &&& req.params@.len() == 0
                    &&& json_of(req.body) == continuation(ttl@, old(self).cursor@)
                },
                None => true,
            },
    {
        match self.state {
            WorkerState::Draining => {
                let url = String::from_str(host).concat("/_search/scroll");
                let body = scroll_body(ttl, self.cursor.as_str());
                self.state = WorkerState::FetchingNextPage;
                Some(Request { url, params: Vec::new(), body })
            },
            _ => None,
        }
    }

    /// Takes a page. While a page is awaited: an empty page, or one that
    /// arrives with the stop flag set, finishes the worker and nothing is
    /// passed on; any other page is passed on whole and in order, with the
    /// reported total, and its cursor is kept for the next request. A page
    /// that is not awaited is dropped.
    pub fn on_page(&mut self, docs: Vec<Hit>, cursor: String, total: u64, cancelled: bool) -> (r: Option<Batch>)
        requires
            old(self).wf(),
        ensures
            final(self).wf(),
            final(self).slices == old(self).slices,
            final(self).slice_id == old(self).slice_id,
            final(self).state == next_state(
                old(self).state,
                WorkerEvent::Page { empty: docs@.len() == 0, cancelled },
            ),
            r is Some <==> emits(
                old(self).state,
                WorkerEvent::Page { empty: docs@.len() == 0, cancelled },
            ),
            match r {
                Some(batch) => batch.docs == docs && batch.total == total && final(self).cursor
                    == cursor,
                None => final(self).cursor == old(self).cursor,
            },
    {
        match self.state {
            WorkerState::FetchingFirstPage | WorkerState::FetchingNextPage => {
                if cancelled || docs.len() == 0 {
                    self.state = WorkerState::Finished;
                    None
                } else {
                    self.cursor = cursor;
                    self.state = WorkerState::Draining;
                    Some(Batch { docs, total })
                }
            },
            _ => None,
        }
    }

    /// Takes the failure of the request that is out: the worker fails, and the
    /// line that reports it comes back. `None` where no request is out.
    pub fn on_failure(&mut self, error: &PullError) -> (r: Option<String>)
        requires
            old(self).wf(),
        ensures
            final(self).wf(),
            final(self).slices == old(self).slices,
            final(self).slice_id == old(self).slice_id,
            final(self).cursor == old(self).cursor,
            final(self).state == next_state(old(self).state, WorkerEvent::Failure),
            match r {
                Some(line) => is_fetching(old(self).state) && line@ == failure_report(
                    old(self).state,
                    old(self).slice_id,
                    *error,
                ),
                None => !is_fetching(old(self).state),
            },
    {
        let label = match self.state {
            WorkerState::FetchingFirstPage => match error {
                PullError::Fetch { .. } => "Fetch error[",
                PullError::Parse(_) => "Parse error[",
                _ => "Error[",
            },
            WorkerState::FetchingNextPage => "Error[",
            _ => {
                return None;
            },
        };
        let line = String::from_str(label).concat(decimal_text(self.slice_id + 1).as_str()).concat(
            "]: ",
        ).concat(error_detail(error).as_str());
        self.state = WorkerState::Failed;
        Some(line)
    }
}

/// A worker that has finished or failed stays as it is, whatever happens,
/// and passes nothing on.
pub proof fn lemma_terminal_is_final(s: WorkerState, events: Seq<WorkerEvent>)
    requires
        is_terminal(s),
    ensures
        state_after(s, events) == s,
        emitted(s, events) == 0,
    decreases events.len(),
{
    if events.len() > 0 {
        lemma_terminal_is_final(s, events.drop_last());
    }
}

/// A worker that awaits a page and receives an empty one finishes without
/// passing anything on, then or later, whatever total was reported.
pub proof fn lemma_empty_page_finishes(s: WorkerState, cancelled: bool, later: Seq<WorkerEvent>)
    requires
        is_fetching(s),
    ensures
        next_state(s, WorkerEvent::Page { empty: true, cancelled }) == WorkerState::Finished,
        !emits(s, WorkerEvent::Page { empty: true, cancelled }),
        emitted(next_state(s, WorkerEvent::Page { empty: true, cancelled }), later) == 0,
{
    lemma_terminal_is_final(WorkerState::Finished, later);
}

/// A page that arrives with the stop flag set finishes the worker and is not
/// passed on.
pub proof fn lemma_cancelled_page_finishes(s: WorkerState, empty: bool)
    requires
        is_fetching(s),
    ensures
        next_state(s, WorkerEvent::Page { empty, cancelled: true }) == WorkerState::Finished,
        !emits(s, WorkerEvent::Page { empty, cancelled: true }),
{
}

/// A failure while a page is awaited fails the worker; what it passed on
/// before stays passed on, and nothing follows.
pub proof fn lemma_failure_is_local(s: WorkerState, before: Seq<WorkerEvent>, later: Seq<WorkerEvent>)
    requires
        is_fetching(state_after(s, before)),
    ensures
        state_after(s, before.push(WorkerEvent::Failure)) == WorkerState::Failed,
        emitted(s, before.push(WorkerEvent::Failure) + later) == emitted(s, before),
    decreases later.len(),
{
    let failed = before.push(WorkerEvent::Failure);
    assert(failed.drop_last() =~= before);
    if later.len() == 0 {
        assert(failed + later =~= failed);
    } else {
        lemma_failure_is_local(s, before, later.drop_last());
        assert((failed + later).drop_last() =~= failed + later.drop_last());
        lemma_run_splits(s, failed, later.drop_last());
        lemma_terminal_is_final(WorkerState::Failed, later.drop_last());
    }
}

/// A run of events may be taken in two parts.
pub proof fn lemma_run_splits(s: WorkerState, first: Seq<WorkerEvent>, second: Seq<WorkerEvent>)
    ensures
        state_after(s, first + second) == state_after(state_after(s, first), second),
        emitted(s, first + second) == emitted(s, first) + emitted(state_after(s, first), second),
    decreases second.len(),
{
    if second.len() == 0 {
        assert(first + second =~= first);
    } else {
        lemma_run_splits(s, first, second.drop_last());
        assert((first + second).drop_last() =~= first + second.drop_last());
    }
}

} // verus!
