use vstd::prelude::*;
use crate::classifier::{failure_error, failure_model, Exception};
use crate::error::{result_model, Error, ErrorModel};
use crate::json::{bool_field, expect_bool_field, Json};

verus! {

/// What the backend answered to a request.
#[derive(Debug)]
pub enum Reply {
    /// A success status, with the body read as JSON.
    Success(Json),
    /// A failure status, with the exception payload if there was one.
    Failure(Option<Exception>),
}

/// The outcome of a request whose success body acknowledges it: success
/// when `acknowledged` is true, `refused` when it is false, and the error
/// text `not_bool` when it is not a boolean.
pub open spec fn ack_outcome(reply: Reply, refused: ErrorModel, not_bool: Seq<char>) -> Result<(), ErrorModel> {
    match reply {
        Reply::Success(json) => match bool_field(json, "acknowledged"@, not_bool) {
            Ok(true) => Ok(()),
            Ok(false) => Err(refused),
            Err(e) => Err(e),
        },
        Reply::Failure(exception) => Err(failure_model(exception)),
    }
}

/// Checks the reply to a request that the backend acknowledges.
pub fn acknowledged(reply: Reply, refused: Error, not_bool: &str) -> (r: Result<(), Error>)
    ensures
        result_model(r) == ack_outcome(reply, refused@, not_bool@),
{
    match reply {
        Reply::Success(json) => match expect_bool_field(&json, "acknowledged", not_bool) {
            Ok(true) => Ok(()),
            Ok(false) => Err(refused),
            Err(e) => Err(e),
        },
        Reply::Failure(exception) => Err(failure_error(exception)),
    }
}

/// The outcome of creating the index `name`.
pub fn create_index_outcome(name: &str, reply: Reply) -> (r: Result<(), Error>)
    ensures
        result_model(r) == ack_outcome(
            reply,
            ErrorModel::NotCreated { details: "index creation "@ + name@ },
            "expected JSON bool"@,
        ),
{
    let mut details = String::from_str("index creation ");
    details.append(name);
    acknowledged(reply, Error::NotCreated { details }, "expected JSON bool")
}

/// The outcome of deleting an index.
pub fn delete_index_outcome(reply: Reply) -> (r: Result<(), Error>)
    ensures
        result_model(r) == ack_outcome(
            reply,
            ErrorModel::NotDeleted {
                details: "Elasticsearch response to index deletion not acknowledged"@,
            },
            "expected JSON bool"@,
        ),
{
    let details = String::from_str("Elasticsearch response to index deletion not acknowledged");
    acknowledged(reply, Error::NotDeleted { details }, "expected JSON bool")
}

/// The outcome of pointing `alias` at indices.
pub fn add_alias_outcome(alias: &str, reply: Reply) -> (r: Result<(), Error>)
    ensures
        result_model(r) == ack_outcome(
            reply,
            ErrorModel::NotAcknowledged { details: "alias "@ + alias@ + " creation"@ },
            "expected JSON boolean"@,
        ),
{
    let mut details = String::from_str("alias ");
    details.append(alias);
    details.append(" creation");
    acknowledged(reply, Error::NotAcknowledged { details }, "expected JSON boolean")
}

/// The outcome of removing `alias` from indices.
pub fn remove_alias_outcome(alias: &str, reply: Reply) -> (r: Result<(), Error>)
    ensures
        result_model(r) == ack_outcome(
            reply,
            ErrorModel::NotAcknowledged { details: "alias "@ + alias@ + " deletion"@ },
            "expected JSON boolean"@,
        ),
{
    let mut details = String::from_str("alias ");
    details.append(alias);
    details.append(" deletion");
    acknowledged(reply, Error::NotAcknowledged { details }, "expected JSON boolean")
}

/// The outcome of registering the ingest pipeline `name`.
pub fn add_pipeline_outcome(name: &str, reply: Reply) -> (r: Result<(), Error>)
    ensures
        result_model(r) == ack_outcome(
            reply,
            ErrorModel::NotAcknowledged { details: "pipeline "@ + name@ + " creation"@ },
            "expected JSON boolean"@,
        ),
{
    let mut details = String::from_str("pipeline ");
    details.append(name);
    details.append(" creation");
    acknowledged(reply, Error::NotAcknowledged { details }, "expected JSON boolean")
}

/// The outcome of a refresh: only the status counts, the body is not read.
pub fn refresh_outcome(reply: Reply) -> (r: Result<(), Error>)
    ensures
        result_model(r) == match reply {
            Reply::Success(_) => Ok(()),
            Reply::Failure(exception) => Err(failure_model(exception)),
        },
{
    match reply {
        Reply::Success(_) => Ok(()),
        Reply::Failure(exception) => Err(failure_error(exception)),
    }
}

} // verus!
