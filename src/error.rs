use vstd::prelude::*;

verus! {

/// The errors that the adapter reports to its callers.
#[derive(Debug, Clone, PartialEq, Eq)]
pub enum Error {
    InvalidConfiguration { details: String },
    /// A call to the backend could not be made or completed.
    ElasticsearchError { details: String },
    NotCreated { details: String },
    NotDeleted { details: String },
    NotAcknowledged { details: String },
    /// The backend answered with a failure status but no exception payload.
    ElasticsearchFailureWithoutException { details: String },
    ElasticsearchUnhandledException { details: String },
    ElasticsearchDuplicateIndex { index: String },
    ElasticsearchFailedToParse,
    ElasticsearchUnknownIndex { index: String },
    ElasticsearchUnknownSetting { setting: String },
    IndexConversion { details: String },
    /// The body of a response could not be read as JSON.
    JsonDeserializationError { details: String },
    /// A JSON text built or received by the adapter could not be parsed.
    Json2DeserializationError { details: String },
    /// A JSON value does not have the expected shape.
    JsonDeserializationInvalid { details: String },
}

/// Mathematical model of [`Error`]: the same variants over character sequences.
pub enum ErrorModel {
    InvalidConfiguration { details: Seq<char> },
    ElasticsearchError { details: Seq<char> },
    NotCreated { details: Seq<char> },
    NotDeleted { details: Seq<char> },
    NotAcknowledged { details: Seq<char> },
    ElasticsearchFailureWithoutException { details: Seq<char> },
    ElasticsearchUnhandledException { details: Seq<char> },
    ElasticsearchDuplicateIndex { index: Seq<char> },
    ElasticsearchFailedToParse,
    ElasticsearchUnknownIndex { index: Seq<char> },
    ElasticsearchUnknownSetting { setting: Seq<char> },
    IndexConversion { details: Seq<char> },
    JsonDeserializationError { details: Seq<char> },
    Json2DeserializationError { details: Seq<char> },
    JsonDeserializationInvalid { details: Seq<char> },
}

impl View for Error {
    type V = ErrorModel;

    open spec fn view(&self) -> ErrorModel {
        match self {
            Error::InvalidConfiguration { details } => ErrorModel::InvalidConfiguration {
                details: details@,
            },
            Error::ElasticsearchError { details } => ErrorModel::ElasticsearchError {
                details: details@,
            },
            Error::NotCreated { details } => ErrorModel::NotCreated { details: details@ },
            Error::NotDeleted { details } => ErrorModel::NotDeleted { details: details@ },
            Error::NotAcknowledged { details } => ErrorModel::NotAcknowledged {
                details: details@,
            },
            Error::ElasticsearchFailureWithoutException {
                details,
            } => ErrorModel::ElasticsearchFailureWithoutException { details: details@ },
            Error::ElasticsearchUnhandledException {
                details,
            } => ErrorModel::ElasticsearchUnhandledException { details: details@ },
            Error::ElasticsearchDuplicateIndex { index } => ErrorModel::ElasticsearchDuplicateIndex {
                index: index@,
            },
            Error::ElasticsearchFailedToParse => ErrorModel::ElasticsearchFailedToParse,
            Error::ElasticsearchUnknownIndex { index } => ErrorModel::ElasticsearchUnknownIndex {
                index: index@,
            },
            Error::ElasticsearchUnknownSetting { setting } => ErrorModel::ElasticsearchUnknownSetting {
                setting: setting@,
            },
            Error::IndexConversion { details } => ErrorModel::IndexConversion { details: details@ },
            Error::JsonDeserializationError { details } => ErrorModel::JsonDeserializationError {
                details: details@,
            },
            Error::Json2DeserializationError { details } => ErrorModel::Json2DeserializationError {
                details: details@,
            },
            Error::JsonDeserializationInvalid { details } => ErrorModel::JsonDeserializationInvalid {
                details: details@,
            },
        }
    }
}

/// Model of a result whose error is an [`Error`].
pub open spec fn result_model<T>(r: Result<T, Error>) -> Result<T, ErrorModel> {
    match r {
        Ok(v) => Ok(v),
        Err(e) => Err(e@),
    }
}

} // verus!
