use vstd::prelude::*;
use crate::error::{Error, ErrorModel};

verus! {

/// Root cause of a backend failure, as the backend reports it.
#[derive(Debug, Clone)]
pub struct Cause {
    pub reason: Option<String>,
}

/// Failure payload that the backend returns with a failure status.
#[derive(Debug, Clone)]
pub struct Exception {
    pub root_cause: Vec<Cause>,
}

/// Reason of a duplicate index; the first group is the index name.
pub const ALREADY_EXISTS: &'static str = r"index \[([^\]/]+).*\] already exists";

/// Reason of a missing index; the first group is the index name.
pub const NOT_FOUND: &'static str = r"no such index \[([^\]/]+).*\]";

/// Reason of a body that the backend could not parse.
pub const FAILED_PARSE: &'static str = r"failed to parse";

/// Reason of an unknown setting; the first group is the setting name.
pub const UNKNOWN_SETTING: &'static str = r"unknown setting \[([^\]/]+).*\]";

/// The text of the first capture group of the leftmost match of `pattern`
/// in `text`, if `pattern` is a valid regular expression that matches.
pub uninterp spec fn regex_group(pattern: Seq<char>, text: Seq<char>) -> Option<Seq<char>>;

/// Whether `pattern` is a valid regular expression with a match in `text`.
pub uninterp spec fn regex_found(pattern: Seq<char>, text: Seq<char>) -> bool;

/// Whether `part` occurs in `text` at some position.
pub open spec fn occurs_in(part: Seq<char>, text: Seq<char>) -> bool {
    exists|i: int| 0 <= i <= text.len() - part.len() && #[trigger] text.subrange(i, i + part.len()) == part
}

/// Relies on regex::Regex::new and regex::Regex::captures: the first group of
/// the leftmost match, which is a piece of the haystack.
#[verifier::external_body]
fn first_group(pattern: &str, text: &str) -> (r: Option<String>)
    ensures
        r matches Some(g) ==> regex_group(pattern@, text@) == Some(g@),
        r is None ==> regex_group(pattern@, text@) is None,
        r matches Some(g) ==> occurs_in(g@, text@),
{
    let re = regex::Regex::new(pattern).ok()?;
    let caps = re.captures(text)?;
    caps.get(1).map(|m| m.as_str().to_string())
}

/// Relies on regex::Regex::new and regex::Regex::is_match: whether the
/// pattern matches anywhere in the haystack.
#[verifier::external_body]
fn pattern_found(pattern: &str, text: &str) -> (r: bool)
    ensures
        r == regex_found(pattern@, text@),
{
    match regex::Regex::new(pattern) {
        Ok(re) => re.is_match(text),
        Err(_) => false,
    }
}

/// The characters of an optional string.
pub open spec fn opt_chars(o: Option<String>) -> Option<Seq<char>> {
    match o {
        Some(s) => Some(s@),
        None => None,
    }
}

/// The classification of a reason, given what each pattern yields on it,
/// tried in order: duplicate index, unknown index, failed parse, unknown
/// setting; otherwise an unhandled exception quoting the reason.
pub open spec fn classification(
    already_exists: Option<Seq<char>>,
    not_found: Option<Seq<char>>,
    failed_parse: bool,
    unknown_setting: Option<Seq<char>>,
    reason: Seq<char>,
) -> ErrorModel {
    if let Some(index) = already_exists {
        ErrorModel::ElasticsearchDuplicateIndex { index }
    } else if let Some(index) = not_found {
        ErrorModel::ElasticsearchUnknownIndex { index }
    } else if failed_parse {
        ErrorModel::ElasticsearchFailedToParse
    } else if let Some(setting) = unknown_setting {
        ErrorModel::ElasticsearchUnknownSetting { setting }
    } else {
        ErrorModel::ElasticsearchUnhandledException {
            details: "Unidentified reason: "@ + reason,
        }
    }
}

/// The classification of a reason string by the four patterns.
pub open spec fn reason_error(reason: Seq<char>) -> ErrorModel {
    classification(
        regex_group(ALREADY_EXISTS@, reason),
        regex_group(NOT_FOUND@, reason),
        regex_found(FAILED_PARSE@, reason),
        regex_group(UNKNOWN_SETTING@, reason),
        reason,
    )
}

/// Whether every name that `e` carries, of an index or a setting, occurs in `reason`.
pub open spec fn names_from(e: ErrorModel, reason: Seq<char>) -> bool {
    match e {
        ErrorModel::ElasticsearchDuplicateIndex { index } => occurs_in(index, reason),
        ErrorModel::ElasticsearchUnknownIndex { index } => occurs_in(index, reason),
        ErrorModel::ElasticsearchUnknownSetting { setting } => occurs_in(setting, reason),
        _ => true,
    }
}

/// Whether every name that `e` carries occurs in the reason of the first root cause.
pub open spec fn names_from_cause(e: ErrorModel, root_cause: Seq<Cause>) -> bool {
    root_cause.len() > 0 && root_cause[0].reason is Some ==> names_from(e, root_cause[0].reason.unwrap()@)
}

/// The error for a failure payload.
pub open spec fn exception_error(root_cause: Seq<Cause>) -> ErrorModel {
    if root_cause.len() == 0 {
        ErrorModel::ElasticsearchUnhandledException { details: "Unspecified root cause"@ }
    } else {
        match root_cause[0].reason {
            Some(reason) => reason_error(reason@),
            None => ErrorModel::ElasticsearchUnhandledException { details: "Unspecified reason"@ },
        }
    }
}

/// Picks the error for a reason from what each pattern yielded on it.
pub fn classify_matches(
    already_exists: Option<String>,
    not_found: Option<String>,
    failed_parse: bool,
    unknown_setting: Option<String>,
    reason: &str,
) -> (r: Error)
    ensures
        r@ == classification(
            opt_chars(already_exists),
            opt_chars(not_found),
            failed_parse,
            opt_chars(unknown_setting),
            reason@,
        ),
{
    if let Some(index) = already_exists {
        Error::ElasticsearchDuplicateIndex { index }
    } else if let Some(index) = not_found {
        Error::ElasticsearchUnknownIndex { index }
    } else if failed_parse {
        Error::ElasticsearchFailedToParse
    } else if let Some(setting) = unknown_setting {
        Error::ElasticsearchUnknownSetting { setting }
    } else {
        let mut details = String::from_str("Unidentified reason: ");
        details.append(reason);
        Error::ElasticsearchUnhandledException { details }
    }
}

/// Classifies the free-text reason of a backend failure.
pub fn classify_reason(reason: &str) -> (r: Error)
    ensures
        r@ == reason_error(reason@),
        names_from(r@, reason@),
{
    let already_exists = first_group(ALREADY_EXISTS, reason);
    let not_found = first_group(NOT_FOUND, reason);
    let failed_parse = pattern_found(FAILED_PARSE, reason);
    let unknown_setting = first_group(UNKNOWN_SETTING, reason);
    classify_matches(already_exists, not_found, failed_parse, unknown_setting, reason)
}

/// Classifies a backend failure payload by the reason of its first root cause.
pub fn classify_exception(exception: &Exception) -> (r: Error)
    ensures
        r@ == exception_error(exception.root_cause@),
        names_from_cause(r@, exception.root_cause@),
{
    if exception.root_cause.len() == 0 {
        Error::ElasticsearchUnhandledException { details: String::from_str("Unspecified root cause") }
    } else {
        match &exception.root_cause[0].reason {
            Some(reason) => classify_reason(reason.as_str()),
            None => Error::ElasticsearchUnhandledException {
                details: String::from_str("Unspecified reason"),
            },
        }
    }
}

/// The error for a failure status: the classified exception, or the lack of one.
pub open spec fn failure_model(exception: Option<Exception>) -> ErrorModel {
    match exception {
        Some(e) => exception_error(e.root_cause@),
        None => ErrorModel::ElasticsearchFailureWithoutException {
            details: "Fail status without exception"@,
        },
    }
}

impl Error {
    /// The error that a failure payload stands for.
    pub fn from(exception: Exception) -> (r: Error)
        ensures
            r@ == exception_error(exception.root_cause@),
            names_from_cause(r@, exception.root_cause@),
    {
        classify_exception(&exception)
    }
}

/// Turns the payload that came with a failure status into an error.
pub fn failure_error(exception: Option<Exception>) -> (r: Error)
    ensures
        r@ == failure_model(exception),
{
    match exception {
        Some(e) => Error::from(e),
        None => Error::ElasticsearchFailureWithoutException {
            details: String::from_str("Fail status without exception"),
        },
    }
}

} // verus!

verus! {

/// The patterns are tried in order and the first that matches decides: a
/// matching pattern gives its kind of error with the name it captured, and a
/// reason that no pattern matches gives an unhandled exception that quotes
/// the reason whole.
pub proof fn lemma_reason_table(reason: Seq<char>)
    ensures
        regex_group(ALREADY_EXISTS@, reason) is Some ==> reason_error(reason) == (
        ErrorModel::ElasticsearchDuplicateIndex { index: regex_group(ALREADY_EXISTS@, reason).unwrap() }),
        regex_group(ALREADY_EXISTS@, reason) is None && regex_group(NOT_FOUND@, reason) is Some
            ==> reason_error(reason) == (ErrorModel::ElasticsearchUnknownIndex {
            index: regex_group(NOT_FOUND@, reason).unwrap(),
        }),
        regex_group(ALREADY_EXISTS@, reason) is None && regex_group(NOT_FOUND@, reason) is None
            && regex_found(FAILED_PARSE@, reason) ==> reason_error(reason)
            == ErrorModel::ElasticsearchFailedToParse,
        regex_group(ALREADY_EXISTS@, reason) is None && regex_group(NOT_FOUND@, reason) is None
            && !regex_found(FAILED_PARSE@, reason) && regex_group(UNKNOWN_SETTING@, reason) is Some
            ==> reason_error(reason) == (ErrorModel::ElasticsearchUnknownSetting {
            setting: regex_group(UNKNOWN_SETTING@, reason).unwrap(),
        }),
        unmatched(reason) ==> reason_error(reason) == (ErrorModel::ElasticsearchUnhandledException {
            details: "Unidentified reason: "@ + reason,
        }),
        occurs_in(reason, "Unidentified reason: "@ + reason),
{
    {
        let details = "Unidentified reason: "@ + reason;
        let i = details.len() - reason.len();
        assert(details.subrange(i, i + reason.len()) =~= reason);
    }
}

/// Whether no pattern matches `reason`.
pub open spec fn unmatched(reason: Seq<char>) -> bool {
    &&& regex_group(ALREADY_EXISTS@, reason) is None
    &&& regex_group(NOT_FOUND@, reason) is None
    &&& !regex_found(FAILED_PARSE@, reason)
    &&& regex_group(UNKNOWN_SETTING@, reason) is None
}

} // verus!
