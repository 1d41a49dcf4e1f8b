//! One page of a scroll: the response document and how it is decoded.
use vstd::prelude::*;
use crate::error::PullError;
use crate::json::{
    as_list, as_natural, as_text, error_text, field, json_of, json_text, member, natural, parse,
    parsed_json, render, Json, JsonNumber,
};

verus! {

/// One record of a page: the compact JSON text of its `_source`.
#[derive(Debug)]
pub struct Hit {
    pub _source: String,
}

/// The records of a page and the number of matches the service reports for
/// the slice.
#[derive(Debug)]
pub struct Hits {
    pub total: u64,
    pub hits: Vec<Hit>,
}

/// A decoded page: the cursor for the next one, and the hits.
#[derive(Debug)]
pub struct ScrollResponse {
    pub _scroll_id: String,
    pub hits: Hits,
}

/// What a page says: its cursor, the reported total, and the text of each
/// record in the order the service gave them.
pub struct PageModel {
    pub cursor: Seq<char>,
    pub total: u64,
    pub records: Seq<Seq<char>>,
}

/// The texts of a batch of records, in order.
pub open spec fn texts(batch: Seq<Hit>) -> Seq<Seq<char>> {
    batch.map_values(|h: Hit| h._source@)
}

impl View for ScrollResponse {
    type V = PageModel;

    open spec fn view(&self) -> PageModel {
        PageModel {
            cursor: self._scroll_id@,
            total: self.hits.total,
            records: texts(self.hits.hits@),
        }
    }
}

/// The total a response reports: a bare non-negative integer, or an object
/// whose member `value` is one. Both spellings mean the same number.
pub open spec fn total_of(j: Json) -> Option<u64> {
    match j {
        Json::Number(JsonNumber::Natural(n)) => Some(n),
        Json::Object(_) => match field(j, "value"@) {
            Some(v) => natural(v),
            None => None,
        },
        _ => None,
    }
}

/// The record text of one hit: the compact text of its member `_source`.
pub open spec fn source_of(hit: Json) -> Option<Seq<char>> {
    match field(hit, "_source"@) {
        Some(s) => Some(json_text(s)),
        None => None,
    }
}

/// The record texts of a list of hits, where every hit has a `_source`.
pub open spec fn records_of(items: Seq<Json>) -> Option<Seq<Seq<char>>> {
    if forall|i: int| 0 <= i < items.len() ==> (#[trigger] source_of(items[i])) is Some {
        Some(Seq::new(items.len(), |i: int| source_of(items[i]).unwrap()))
    } else {
        None
    }
}

/// The page a response document holds. The document must be an object with a
/// string `_scroll_id` and an object `hits`, which has a `total` in one of
/// its two spellings and a list `hits` of objects with a `_source` each.
/// Other members are ignored.
pub open spec fn page_of(j: Json) -> Option<PageModel> {
    match (field(j, "_scroll_id"@), field(j, "hits"@)) {
        (Some(Json::Text(cursor)), Some(h)) => match (field(h, "total"@), field(h, "hits"@)) {
            (Some(t), Some(Json::List(items))) => match (total_of(t), records_of(items)) {
                (Some(total), Some(records)) => Some(PageModel { cursor, total, records }),
                _ => None,
            },
            _ => None,
        },
        _ => None,
    }
}

/// Why a document is not a page: the first thing that is missing from it, or
/// is of another kind than a page has there.
pub open spec fn fault_of(j: Json) -> Seq<char> {
    match field(j, "_scroll_id"@) {
        None => "missing field `_scroll_id`"@,
        Some(Json::Text(_)) => match field(j, "hits"@) {
            None => "missing field `hits`"@,
            Some(h) => match field(h, "total"@) {
                None => "missing field `total`"@,
                Some(t) => if total_of(t) is None {
                    "invalid `total`: expected u64 or map contains u64 value"@
                } else {
                    match field(h, "hits"@) {
                        None => "missing field `hits`"@,
                        Some(Json::List(_)) => "missing field `_source`"@,
                        Some(_) => "invalid `hits`: expected a sequence"@,
                    }
                },
            },
        },
        Some(_) => "invalid `_scroll_id`: expected a string"@,
    }
}

/// The page a response body holds: the body parsed as JSON, then decoded.
pub open spec fn page_in(body: Seq<char>) -> Option<PageModel> {
    match parsed_json(body) {
        Some(j) => page_of(j),
        None => None,
    }
}

/// A total means the same number in both spellings: bare, or as the member
/// `value` of an object, whatever else the object holds.
pub proof fn lemma_total_spellings_agree(n: u64, others: Map<Seq<char>, Json>)
    ensures
        total_of(Json::Number(JsonNumber::Natural(n))) == Some(n),
        total_of(Json::Object(others.insert("value"@, Json::Number(JsonNumber::Natural(n)))))
            == Some(n),
{
}

/// Decodes the reported total in either spelling.
pub fn parse_total(v: &serde_json::Value) -> (r: Option<u64>)
    ensures
        r == total_of(json_of(*v)),
{
    match as_natural(v) {
        Some(n) => Some(n),
        None => match member(v, "value") {
            Some(w) => as_natural(w),
            None => None,
        },
    }
}

/// Decodes the hits of a page, keeping their order.
fn decode_hits(items: &Vec<serde_json::Value>) -> (r: Option<Vec<Hit>>)
    ensures
        match r {
            Some(hits) => records_of(items@.map_values(|x: serde_json::Value| json_of(x))) == Some(
                texts(hits@),
            ),
            None => records_of(items@.map_values(|x: serde_json::Value| json_of(x))) is None,
        },
{
    let ghost docs = items@.map_values(|x: serde_json::Value| json_of(x));
    let mut hits: Vec<Hit> = Vec::new();
    let mut i: usize = 0;
    while i < items.len()
        invariant
            i <= items.len(),
            docs == items@.map_values(|x: serde_json::Value| json_of(x)),
            hits@.len() == i,
            forall|k: int| 0 <= k < i ==> source_of(docs[k]) == Some(#[trigger] hits@[k]._source@),
        decreases items.len() - i,
    {
        match member(&items[i], "_source") {
            Some(s) => {
                hits.push(Hit { _source: render(s) });
            },
            None => {
                assert(source_of(docs[i as int]) is None);
                return None;
            },
        }
        i += 1;
    }
    proof {
        assert forall|k: int| 0 <= k < docs.len() implies (#[trigger] source_of(docs[k])) is Some by {
            assert(source_of(docs[k]) == Some(hits@[k]._source@));
        }
        assert(records_of(docs).unwrap() =~= texts(hits@));
    }
    Some(hits)
}

/// Decodes a response document into a page. A document of another shape is
/// a parse error.
pub fn decode_response(v: &serde_json::Value) -> (r: Result<ScrollResponse, PullError>)
    ensures
        match r {
            Ok(page) => page_of(json_of(*v)) == Some(page@),
            Err(PullError::Parse(why)) => page_of(json_of(*v)) is None && why@ == fault_of(
                json_of(*v),
            ),
            Err(_) => false,
        },
{
    let cursor = match member(v, "_scroll_id") {
        Some(c) => match as_text(c) {
            Some(s) => s,
            None => {
                return Err(PullError::Parse(String::from_str("invalid `_scroll_id`: expected a string")));
            },
        },
        None => {
            return Err(PullError::Parse(String::from_str("missing field `_scroll_id`")));
        },
    };
    let hits = match member(v, "hits") {
        Some(h) => h,
        None => {
            return Err(PullError::Parse(String::from_str("missing field `hits`")));
        },
    };
    let total = match member(hits, "total") {
        Some(t) => match parse_total(t) {
            Some(n) => n,
            None => {
                return Err(
                    PullError::Parse(
                        String::from_str("invalid `total`: expected u64 or map contains u64 value"),
                    ),
                );
            },
        },
        None => {
            return Err(PullError::Parse(String::from_str("missing field `total`")));
        },
    };
    let items = match member(hits, "hits") {
        Some(list) => match as_list(list) {
            Some(items) => items,
            None => {
                return Err(PullError::Parse(String::from_str("invalid `hits`: expected a sequence")));
            },
        },
        None => {
            return Err(PullError::Parse(String::from_str("missing field `hits`")));
        },
    };
    match decode_hits(items) {
        Some(records) => Ok(
            ScrollResponse {
                _scroll_id: String::from_str(cursor),
                hits: Hits { total, hits: records },
            },
        ),
        None => Err(PullError::Parse(String::from_str("missing field `_source`"))),
    }
}

/// Reads a response body: the records in order, the cursor, and the reported
/// total. A body that is not JSON, or not a page, is a parse error; for JSON
/// that is no page the error says what is missing.
pub fn parse_response(body: &str) -> (r: Result<(Vec<Hit>, String, u64), PullError>)
    ensures
        match r {
            Ok((docs, cursor, total)) => page_in(body@) == Some(
                PageModel { cursor: cursor@, total: total, records: texts(docs@) },
            ),
            Err(PullError::Parse(why)) => page_in(body@) is None && (parsed_json(body@) matches Some(
                j,
            ) ==> why@ == fault_of(j)),
            Err(_) => false,
        },
{
    match parse(body) {
        Ok(v) => match decode_response(&v) {
            Ok(page) => Ok((page.hits.hits, page._scroll_id, page.hits.total)),
            Err(e) => Err(e),
        },
        Err(e) => Err(PullError::Parse(error_text(&e))),
    }
}

/// Sorts an answer of the service by its status: a body under a status of
/// 200 to 299 is read as a page, any other status is a fetch error that
/// carries the status and the body as they came.
pub fn read_reply(status: u16, body: String) -> (r: Result<(Vec<Hit>, String, u64), PullError>)
    ensures
        match r {
            Ok((docs, cursor, total)) => 200 <= status <= 299 && page_in(body@) == Some(
                PageModel { cursor: cursor@, total: total, records: texts(docs@) },
            ),
            Err(PullError::Fetch { status: s, body: b }) => !(200 <= status <= 299) && s == Some(
                status,
            ) && b == body,
            Err(PullError::Parse(why)) => 200 <= status <= 299 && page_in(body@) is None && (
            parsed_json(body@) matches Some(j) ==> why@ == fault_of(j)),
            Err(_) => false,
        },
{
    if 200 <= status && status <= 299 {
        parse_response(body.as_str())
    } else {
        Err(PullError::Fetch { status: Some(status), body })
    }
}

} // verus!
