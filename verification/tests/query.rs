use estunnel::error::PullError;
use estunnel::query::{derive_batch_size, inject_query, query_page_size, scroll_body};
use serde_json::Value;

fn doc(text: &str) -> Value {
    serde_json::from_str(text).unwrap()
}

#[test]
fn slice_clause_is_injected_for_every_worker() {
    let slices: u64 = 3;
    for id in 0..slices {
        let q = inject_query(slices, id, doc(r#"{"query":{"match_all":{}},"size":10}"#)).unwrap();
        assert_eq!(q["slice"]["id"].as_u64(), Some(id));
        assert_eq!(q["slice"]["max"].as_u64(), Some(slices));
        assert_eq!(q["slice"].as_object().unwrap().len(), 2);
        assert_eq!(q["query"], doc(r#"{"match_all":{}}"#));
        assert_eq!(q["size"].as_u64(), Some(10));
        assert_eq!(q.as_object().unwrap().len(), 3);
    }
}

#[test]
fn single_slice_has_no_slice_key() {
    let before = doc(r#"{"query":{"match_all":{}}}"#);
    let q = inject_query(1, 0, before.clone()).unwrap();
    assert_eq!(q, before);
    assert!(q.get("slice").is_none());
}

#[test]
fn single_slice_accepts_any_document() {
    let q = inject_query(1, 0, doc("[1,2]")).unwrap();
    assert_eq!(q, doc("[1,2]"));
}

#[test]
fn injected_clause_replaces_an_earlier_one() {
    let q = inject_query(2, 1, doc(r#"{"slice":{"id":9,"max":9,"field":"x"}}"#)).unwrap();
    assert_eq!(q, doc(r#"{"slice":{"id":1,"max":2}}"#));
}

#[test]
fn several_slices_need_an_object() {
    match inject_query(2, 0, doc("[1,2]")) {
        Err(PullError::Config(_)) => {}
        other => panic!("expected a configuration error, got {:?}", other),
    }
    assert!(matches!(inject_query(4, 3, doc("null")), Err(PullError::Config(_))));
}

#[test]
fn page_size_is_read_from_the_query() {
    assert_eq!(query_page_size(&doc(r#"{"size":500}"#)), Some(500));
    assert_eq!(query_page_size(&doc(r#"{"query":{}}"#)), None);
    assert_eq!(query_page_size(&doc(r#"{"size":"500"}"#)), None);
    assert_eq!(query_page_size(&doc(r#"{"size":-5}"#)), None);
    assert_eq!(query_page_size(&doc(r#"{"size":1.5}"#)), None);
    assert_eq!(query_page_size(&doc("[500]")), None);
}

#[test]
fn batch_size_is_derived_from_the_query() {
    assert_eq!(derive_batch_size(None, &doc(r#"{"size":500}"#), None, 1), 500);
    assert_eq!(derive_batch_size(None, &doc(r#"{"query":{}}"#), None, 1), 1000);
    assert_eq!(derive_batch_size(Some(2000), &doc(r#"{"size":500}"#), Some(100), 4), 25);
    assert_eq!(derive_batch_size(None, &doc(r#"{"size":500}"#), Some(100), 1), 100);
}

#[test]
fn continuation_body_holds_ttl_and_cursor() {
    let body = scroll_body("1m", "c2Nyb2xs");
    assert_eq!(body, doc(r#"{"scroll":"1m","scroll_id":"c2Nyb2xs"}"#));
    assert_eq!(body.to_string(), r#"{"scroll":"1m","scroll_id":"c2Nyb2xs"}"#);
}
