use estunnel::cli::PullOpt;
use estunnel::error::PullError;
use estunnel::pull::{prepare, NO_SLICES};
use estunnel::query::NOT_AN_OBJECT;
use serde_json::Value;
use std::path::PathBuf;

fn options(user: Option<&str>, slice: u64, batch: Option<u64>, limit: Option<u64>) -> PullOpt {
    PullOpt {
        host: "http://localhost:9200".to_string(),
        user: user.map(|u| u.to_string()),
        index: "logs".to_string(),
        query: None,
        slice,
        batch,
        limit,
        output: PathBuf::from("/dev/stdout"),
        ttl: "1m".to_string(),
    }
}

fn parsed(text: &str) -> Value {
    serde_json::from_str(text).unwrap()
}

#[test]
fn a_plan_holds_login_batch_and_workers() {
    let plan = prepare(&options(Some("elastic:secret"), 4, Some(2000), Some(100)), &parsed(r#"{"size":500}"#)).unwrap();
    assert_eq!(plan.user, "elastic");
    assert_eq!(plan.pass, Some("secret".to_string()));
    assert!(!plan.ask_password);
    assert_eq!(plan.batch, 25);
    assert_eq!(plan.workers, 4);
}

#[test]
fn a_plan_takes_the_page_size_of_the_query() {
    let plan = prepare(&options(None, 1, None, None), &parsed(r#"{"size":500}"#)).unwrap();
    assert_eq!(plan.batch, 500);
    assert_eq!(plan.user, "estunnel");
    assert_eq!(plan.pass, None);
    assert!(!plan.ask_password);
    let plan = prepare(&options(None, 1, None, None), &parsed(r#"{"query":{}}"#)).unwrap();
    assert_eq!(plan.batch, 1000);
}

#[test]
fn a_login_without_password_is_asked_for_one() {
    let plan = prepare(&options(Some("elastic"), 1, None, None), &parsed("{}")).unwrap();
    assert_eq!(plan.user, "elastic");
    assert_eq!(plan.pass, None);
    assert!(plan.ask_password);
}

#[test]
fn a_run_without_slices_is_refused() {
    match prepare(&options(None, 0, None, Some(10)), &parsed("{}")) {
        Err(PullError::Config(why)) => assert_eq!(why, NO_SLICES),
        other => panic!("expected a configuration error, got {:?}", other),
    }
}

#[test]
fn several_slices_are_refused_for_a_query_that_is_no_object() {
    match prepare(&options(None, 2, None, None), &parsed("[]")) {
        Err(PullError::Config(why)) => assert_eq!(why, NOT_AN_OBJECT),
        other => panic!("expected a configuration error, got {:?}", other),
    }
    assert!(prepare(&options(None, 1, None, None), &parsed("[]")).is_ok());
    assert!(prepare(&options(None, 2, None, None), &parsed("{}")).is_ok());
}
