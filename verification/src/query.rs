//! The query document: what it declares, and what each slice adds to it.
use vstd::prelude::*;
use crate::batch::{effective_batch, effective_batch_size};
use crate::error::PullError;
use crate::json::{
    as_natural, field, from_entries, from_natural, from_text, insert_entry,
    into_entries, json_of, member, natural, new_entries, no_entries, Json, JsonNumber,
};

verus! {

/// What is said of a query that cannot take a slice clause.
pub const NOT_AN_OBJECT: &'static str = "the query is not a JSON object";

/// The page size a query declares: its member `size`, where that is a
/// non-negative integer.
pub open spec fn declared_size(query: Json) -> Option<u64> {
    match field(query, "size"@) {
        Some(s) => natural(s),
        None => None,
    }
}

/// The clause that binds a request to one slice of `slices`.
pub open spec fn slice_clause(slices: u64, slice_id: u64) -> Json {
    Json::Object(
        no_entries().insert("id"@, Json::Number(JsonNumber::Natural(slice_id))).insert(
            "max"@,
            Json::Number(JsonNumber::Natural(slices)),
        ),
    )
}

/// The query that slice `slice_id` sends. With one slice it is the query
/// itself; with more, the query with `slice` set to the slice's clause, which
/// takes an object. `None` where there are several slices and the query is no
/// object.
pub open spec fn sliced_query(slices: u64, slice_id: u64, query: Json) -> Option<Json> {
    if slices > 1 {
        match query {
            Json::Object(m) => Some(Json::Object(m.insert("slice"@, slice_clause(slices, slice_id)))),
            _ => None,
        }
    } else {
        Some(query)
    }
}

/// The body of a continuation request: the time-to-live and the cursor.
pub open spec fn continuation(ttl: Seq<char>, cursor: Seq<char>) -> Json {
    Json::Object(
        no_entries().insert("scroll"@, Json::Text(ttl)).insert("scroll_id"@, Json::Text(cursor)),
    )
}

/// Reads the page size that a query declares.
pub fn query_page_size(query: &serde_json::Value) -> (r: Option<u64>)
    ensures
        r == declared_size(json_of(*query)),
{
    match member(query, "size") {
        Some(s) => as_natural(s),
        None => None,
    }
}

/// The page size of a run whose query is `query`.
pub fn derive_batch_size(
    requested: Option<u64>,
    query: &serde_json::Value,
    limit: Option<u64>,
    slices: u64,
) -> (r: u64)
    requires
        slices >= 1,
    ensures
        r == effective_batch(requested, declared_size(json_of(*query)), limit, slices),
{
    let declared = match requested {
        Some(_) => None,
        None => query_page_size(query),
    };
    effective_batch_size(requested, declared, limit, slices)
}

/// Builds the clause of slice `slice_id` of `slices`.
fn build_slice_clause(slices: u64, slice_id: u64) -> (r: serde_json::Value)
    ensures
        json_of(r) == slice_clause(slices, slice_id),
{
    let mut clause = new_entries();
    insert_entry(&mut clause, String::from_str("id"), from_natural(slice_id));
    insert_entry(&mut clause, String::from_str("max"), from_natural(slices));
    from_entries(clause)
}

/// Prepares the query of one slice. With a single slice the query goes out
/// unchanged. With several, its member `slice` is set to `{id, max}`; a query
/// that is no object cannot take the clause and is refused as a
/// configuration error.
pub fn inject_query(slices: u64, slice_id: u64, query: serde_json::Value) -> (r: Result<serde_json::Value, PullError>)
    ensures
        match r {
            Ok(q) => sliced_query(slices, slice_id, json_of(query)) == Some(json_of(q)),
            Err(PullError::Config(why)) => sliced_query(slices, slice_id, json_of(query)) is None
                && why@ == NOT_AN_OBJECT@,
            Err(_) => false,
        },
{
    if slices > 1 {
        match into_entries(query) {
            Ok(mut members) => {
                let clause = build_slice_clause(slices, slice_id);
                insert_entry(&mut members, String::from_str("slice"), clause);
                Ok(from_entries(members))
            },
            Err(_) => Err(PullError::Config(String::from_str(NOT_AN_OBJECT))),
        }
    } else {
        Ok(query)
    }
}

/// Builds the body of a continuation request.
pub fn scroll_body(ttl: &str, cursor: &str) -> (r: serde_json::Value)
    ensures
        json_of(r) == continuation(ttl@, cursor@),
{
    let mut body = new_entries();
    insert_entry(&mut body, String::from_str("scroll"), from_text(ttl));
    insert_entry(&mut body, String::from_str("scroll_id"), from_text(cursor));
    from_entries(body)
}

/// With several slices, the query of each carries the clause of that slice
/// and is otherwise the caller's query: its own `id`, the common `max`.
pub proof fn lemma_slice_clause_injected(slices: u64, slice_id: u64, query: Json)
    requires
        slices > 1,
        query is Object,
    ensures
        sliced_query(slices, slice_id, query) is Some,
        field(sliced_query(slices, slice_id, query).unwrap(), "slice"@) == Some(
            slice_clause(slices, slice_id),
        ),
        field(slice_clause(slices, slice_id), "id"@) == Some(
            Json::Number(JsonNumber::Natural(slice_id)),
        ),
        field(slice_clause(slices, slice_id), "max"@) == Some(
            Json::Number(JsonNumber::Natural(slices)),
        ),
        forall|key: Seq<char>|
            key != "slice"@ ==> #[trigger] field(
                sliced_query(slices, slice_id, query).unwrap(),
                key,
            ) == field(query, key),
{
    reveal_strlit("id");
    reveal_strlit("max");
    assert("id"@ != "max"@) by {
        assert("id"@.len() == 2);
        assert("max"@.len() == 3);
    }
}

/// With a single slice the query goes out as it came: it has a member
/// `slice` only where the caller wrote one.
pub proof fn lemma_single_slice_unchanged(slice_id: u64, query: Json)
    ensures
        sliced_query(1, slice_id, query) == Some(query),
        field(query, "slice"@) is None ==> field(
            sliced_query(1, slice_id, query).unwrap(),
            "slice"@,
        ) is None,
{
}

/// Two slices of one run send different clauses.
pub proof fn lemma_slice_clauses_distinct(slices: u64, a: u64, b: u64)
    requires
        a != b,
    ensures
        slice_clause(slices, a) != slice_clause(slices, b),
{
    reveal_strlit("id");
    reveal_strlit("max");
    assert("id"@ != "max"@) by {
        assert("id"@.len() == 2);
        assert("max"@.len() == 3);
    }
    assert(field(slice_clause(slices, a), "id"@) == Some(Json::Number(JsonNumber::Natural(a))));
    assert(field(slice_clause(slices, b), "id"@) == Some(Json::Number(JsonNumber::Natural(b))));
}

} // verus!
