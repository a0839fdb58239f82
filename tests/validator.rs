use mimir2::error::Error;
use mimir2::json::{expect_bool_field, find_member, Json};
use mimir2::lifecycle::{
    acknowledged, add_alias_outcome, add_pipeline_outcome, create_index_outcome, delete_index_outcome,
    refresh_outcome, remove_alias_outcome, Reply,
};
use mimir2::classifier::{Cause, Exception};

fn ack(value: Json) -> Json {
    Json::Object(vec![(String::from("acknowledged"), value)])
}

fn invalid(details: &str) -> Error {
    Error::JsonDeserializationInvalid { details: String::from(details) }
}

#[test]
fn acknowledged_true_and_false() {
    assert_eq!(expect_bool_field(&ack(Json::Bool(true)), "acknowledged", "expected JSON bool"), Ok(true));
    assert_eq!(expect_bool_field(&ack(Json::Bool(false)), "acknowledged", "expected JSON bool"), Ok(false));
}

#[test]
fn shape_errors() {
    assert_eq!(
        expect_bool_field(&Json::Object(vec![]), "acknowledged", "expected JSON bool"),
        Err(invalid("expected 'acknowledged'"))
    );
    assert_eq!(
        expect_bool_field(&ack(Json::Str(String::from("yes"))), "acknowledged", "expected JSON bool"),
        Err(invalid("expected JSON bool"))
    );
    assert_eq!(
        expect_bool_field(&Json::Array(vec![ack(Json::Bool(true))]), "acknowledged", "expected JSON bool"),
        Err(invalid("expected JSON object"))
    );
}

#[test]
fn first_member_is_found() {
    let members = vec![
        (String::from("a"), Json::Bool(true)),
        (String::from("b"), Json::Bool(false)),
        (String::from("b"), Json::Null),
    ];
    assert!(matches!(find_member(&members, "b"), Some(Json::Bool(false))));
    assert!(find_member(&members, "c").is_none());
}

#[test]
fn acknowledgment_outcomes() {
    let refused = Error::NotAcknowledged { details: String::from("no") };
    assert_eq!(acknowledged(Reply::Success(ack(Json::Bool(true))), refused.clone(), "expected JSON bool"), Ok(()));
    assert_eq!(acknowledged(Reply::Success(ack(Json::Bool(false))), refused.clone(), "expected JSON bool"), Err(refused.clone()));
    assert_eq!(acknowledged(Reply::Success(Json::Null), refused, "expected JSON bool"), Err(invalid("expected JSON object")));
}

#[test]
fn create_index_refused() {
    let r = create_index_outcome("book_fr_20210101", Reply::Success(ack(Json::Bool(false))));
    assert_eq!(r, Err(Error::NotCreated { details: String::from("index creation book_fr_20210101") }));
}

#[test]
fn create_existing_index() {
    let exception = Exception {
        root_cause: vec![Cause {
            reason: Some(String::from("index [book_fr_20210101/8dK4pQ] already exists")),
        }],
    };
    let r = create_index_outcome("book_fr_20210101", Reply::Failure(Some(exception)));
    assert_eq!(r, Err(Error::ElasticsearchDuplicateIndex { index: String::from("book_fr_20210101") }));
}

#[test]
fn other_refusals() {
    let no = || Reply::Success(ack(Json::Bool(false)));
    assert_eq!(
        delete_index_outcome(no()),
        Err(Error::NotDeleted {
            details: String::from("Elasticsearch response to index deletion not acknowledged")
        })
    );
    assert_eq!(
        add_alias_outcome("book_fr", no()),
        Err(Error::NotAcknowledged { details: String::from("alias book_fr creation") })
    );
    assert_eq!(
        remove_alias_outcome("book_fr", no()),
        Err(Error::NotAcknowledged { details: String::from("alias book_fr deletion") })
    );
    assert_eq!(
        add_pipeline_outcome("p1", no()),
        Err(Error::NotAcknowledged { details: String::from("pipeline p1 creation") })
    );
}

#[test]
fn refresh_reads_status_only() {
    assert_eq!(refresh_outcome(Reply::Success(Json::Null)), Ok(()));
    assert_eq!(
        refresh_outcome(Reply::Failure(None)),
        Err(Error::ElasticsearchFailureWithoutException { details: String::from("Fail status without exception") })
    );
}

#[test]
fn non_boolean_acknowledgment_texts() {
    let yes = || Reply::Success(ack(Json::Str(String::from("yes"))));
    assert_eq!(create_index_outcome("i", yes()), Err(invalid("expected JSON bool")));
    assert_eq!(delete_index_outcome(yes()), Err(invalid("expected JSON bool")));
    assert_eq!(add_alias_outcome("a", yes()), Err(invalid("expected JSON boolean")));
    assert_eq!(remove_alias_outcome("a", yes()), Err(invalid("expected JSON boolean")));
    assert_eq!(add_pipeline_outcome("p", yes()), Err(invalid("expected JSON boolean")));
    assert_eq!(add_alias_outcome("a", Reply::Success(Json::Object(vec![]))), Err(invalid("expected 'acknowledged'")));
    assert_eq!(add_alias_outcome("a", Reply::Success(Json::Bool(true))), Err(invalid("expected JSON object")));
}
