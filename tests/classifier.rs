use mimir2::classifier::{classify_exception, classify_matches, classify_reason, failure_error, Cause, Exception};
use mimir2::error::Error;

fn exception_with(reasons: Vec<Option<&str>>) -> Exception {
    Exception {
        root_cause: reasons
            .into_iter()
            .map(|r| Cause { reason: r.map(String::from) })
            .collect(),
    }
}

#[test]
fn duplicate_index_reason() {
    let e = classify_reason("index [book_fr_20210101/QZ3xIyXLSXWxLK7OUEUmVw] already exists");
    assert_eq!(e, Error::ElasticsearchDuplicateIndex { index: String::from("book_fr_20210101") });
}

#[test]
fn unknown_index_reason() {
    let e = classify_reason("no such index [book_fr_20210101]");
    assert_eq!(e, Error::ElasticsearchUnknownIndex { index: String::from("book_fr_20210101") });
}

#[test]
fn failed_parse_reason() {
    let e = classify_reason("the backend failed to parse field [name] of type [text]");
    assert_eq!(e, Error::ElasticsearchFailedToParse);
}

#[test]
fn unknown_setting_reason() {
    let e = classify_reason("unknown setting [index.foo] please check that any required plugins are installed");
    assert_eq!(e, Error::ElasticsearchUnknownSetting { setting: String::from("index.foo") });
}

#[test]
fn unmatched_reason_is_quoted() {
    let e = classify_reason("something else went wrong");
    assert_eq!(
        e,
        Error::ElasticsearchUnhandledException {
            details: String::from("Unidentified reason: something else went wrong")
        }
    );
}

#[test]
fn first_pattern_wins() {
    let e = classify_reason("index [a] already exists and failed to parse");
    assert_eq!(e, Error::ElasticsearchDuplicateIndex { index: String::from("a") });
}

#[test]
fn matches_are_picked_in_order() {
    let e = classify_matches(None, Some(String::from("x")), true, Some(String::from("y")), "r");
    assert_eq!(e, Error::ElasticsearchUnknownIndex { index: String::from("x") });
    let e = classify_matches(None, None, false, Some(String::from("y")), "r");
    assert_eq!(e, Error::ElasticsearchUnknownSetting { setting: String::from("y") });
    let e = classify_matches(None, None, false, None, "r");
    assert_eq!(e, Error::ElasticsearchUnhandledException { details: String::from("Unidentified reason: r") });
}

#[test]
fn empty_root_cause() {
    let e = classify_exception(&exception_with(vec![]));
    assert_eq!(e, Error::ElasticsearchUnhandledException { details: String::from("Unspecified root cause") });
}

#[test]
fn missing_reason() {
    let e = classify_exception(&exception_with(vec![None]));
    assert_eq!(e, Error::ElasticsearchUnhandledException { details: String::from("Unspecified reason") });
}

#[test]
fn first_root_cause_decides() {
    let e = classify_exception(&exception_with(vec![Some("no such index [x]"), Some("failed to parse")]));
    assert_eq!(e, Error::ElasticsearchUnknownIndex { index: String::from("x") });
}

#[test]
fn failure_without_exception() {
    assert_eq!(
        failure_error(None),
        Error::ElasticsearchFailureWithoutException { details: String::from("Fail status without exception") }
    );
}

#[test]
fn extracted_names_occur_in_reason() {
    let reason = "index [logs/uuid] already exists";
    match classify_reason(reason) {
        Error::ElasticsearchDuplicateIndex { index } => assert!(reason.contains(&index)),
        other => panic!("unexpected {:?}", other),
    }
}

#[test]
fn error_from_exception() {
    let e = Error::from(exception_with(vec![Some("unknown setting [index.x] did you mean")]));
    assert_eq!(e, Error::ElasticsearchUnknownSetting { setting: String::from("index.x") });
}
