use mimir2::bulk::{created_items, is_created, BulkTally, CHUNK_SIZE};
use mimir2::classifier::{Cause, Exception};
use mimir2::error::Error;
use mimir2::json::Json;
use mimir2::lifecycle::Reply;

fn item(result: &str) -> Json {
    Json::Object(vec![(
        String::from("index"),
        Json::Object(vec![(String::from("result"), Json::Str(String::from(result)))]),
    )])
}

fn response(results: &[&str]) -> Json {
    Json::Object(vec![(String::from("items"), Json::Array(results.iter().map(|r| item(r)).collect()))])
}

#[test]
fn items_created() {
    assert!(is_created(&item("created")));
    assert!(!is_created(&item("updated")));
    assert!(!is_created(&Json::Null));
    assert_eq!(created_items(&response(&["created", "updated", "created"]), 3), 2);
    assert_eq!(created_items(&response(&["created", "created", "created"]), 2), 2);
    assert_eq!(created_items(&Json::Object(vec![]), 3), 0);
}

#[test]
fn twenty_five_documents() {
    let mut tally = BulkTally::new();
    let mut left: usize = 25;
    while left > 0 {
        let n = if left < CHUNK_SIZE { left } else { CHUNK_SIZE };
        let results = vec!["created"; n];
        assert!(tally.record(n, Reply::Success(response(&results))).is_none());
        left -= n;
    }
    assert_eq!(tally.count(), 25);
    assert_eq!(tally.requests, 3);
    assert_eq!(tally.documents, 25);
    assert!(!tally.accepting);
}

#[test]
fn failed_batch_is_skipped() {
    let mut tally = BulkTally::new();
    assert!(tally.record(10, Reply::Success(response(&["created"; 10]))).is_none());
    let exception = Exception { root_cause: vec![Cause { reason: Some(String::from("failed to parse")) }] };
    assert_eq!(tally.record(10, Reply::Failure(Some(exception))), Some(Error::ElasticsearchFailedToParse));
    assert!(tally.accepting);
    assert!(tally.record(3, Reply::Success(response(&["created", "noop", "created"]))).is_none());
    assert_eq!(tally.count(), 12);
    assert_eq!(tally.requests, 3);
    assert_eq!(tally.documents, 23);
}
