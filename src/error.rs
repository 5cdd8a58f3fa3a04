use vstd::prelude::*;
use vstd::string::*;
use crate::decimal::{decimal, decimal_string};
use argon2::Error as ArgonError;

verus! {

/// argon2's error type, carried through unopened.
#[verifier::external_type_specification]
#[verifier::external_body]
pub struct ExArgonError(ArgonError);

/// Relies on the `Clone` that argon2 derives for its error: a copy of the value.
pub assume_specification[ <ArgonError as Clone>::clone ](e: &ArgonError) -> (r: ArgonError)
    ensures
        r == *e,
;

/// The error envelope that the moderation service sends with a 4xx or 5xx status.
#[derive(Debug, Clone, PartialEq)]
pub struct APILayerError {
    pub status: u16,
    pub message: String,
}

/// What the persistence layer reports about a failed query: the database's
/// error code when the failure came from the database itself.
#[derive(Debug, Clone, PartialEq)]
pub struct DbFailure {
    pub code: Option<String>,
}

/// The closed set of failures that request handling can end in.
#[derive(Debug, Clone)]
pub enum Error {
    /// A request parameter could not be parsed; holds the parser's explanation.
    ParseError(String),
    MissingParameters,
    WrongPassword,
    /// The password-hashing library failed (for example on a malformed hash).
    ArgonLibraryError(ArgonError),
    QuestionNotFound,
    DatabaseQueryError(DbFailure),
    /// No usable answer came back from the moderation service; holds the cause.
    ExternalAPIError(String),
    /// The moderation service rejected the request (4xx).
    ClientError(APILayerError),
    /// The moderation service failed on its side (any other non-success status).
    ServerError(APILayerError),
    ReqwestAPIError(String),
    MiddlewareReqwestAPIError(String),
}

/// How the moderation service's error envelope is rendered.
pub open spec fn layer_text(e: APILayerError) -> Seq<char> {
    "Status: "@ + decimal(e.status as nat) + ", Message: "@ + e.message@
}

/// The text of each kind of failure.
pub open spec fn message(e: Error) -> Seq<char> {
    match e {
        Error::ParseError(d) => "Cannot parse parameter: "@ + d@,
        Error::MissingParameters => "Missing parameter"@,
        Error::WrongPassword => "Wrong password"@,
        Error::ArgonLibraryError(_) => "Cannot verify password"@,
        Error::QuestionNotFound => "Question not found"@,
        Error::DatabaseQueryError(_) => "Query could not be executed"@,
        Error::ExternalAPIError(d) => "Cannot execute: "@ + d@,
        Error::ClientError(l) => "External Client error: "@ + layer_text(l),
        Error::ServerError(l) => "External Server error: "@ + layer_text(l),
        Error::ReqwestAPIError(d) => "External API error: "@ + d@,
        Error::MiddlewareReqwestAPIError(d) => "External API error: "@ + d@,
    }
}

impl APILayerError {
    /// Renders the envelope as `Status: <status>, Message: <message>`.
    pub fn to_text(&self) -> (r: String)
        ensures
            r@ == layer_text(*self),
    {
        let mut s = String::from_str("Status: ");
        let status = decimal_string(self.status);
        s.append(status.as_str());
        s.append(", Message: ");
        s.append(self.message.as_str());
        s
    }
}

fn prefixed(prefix: &str, rest: &str) -> (r: String)
    ensures
        r@ == prefix@ + rest@,
{
    let mut s = String::from_str(prefix);
    s.append(rest);
    s
}

impl Error {
    /// The text that describes this failure.
    pub fn to_text(&self) -> (r: String)
        ensures
            r@ == message(*self),
    {
        match self {
            Error::ParseError(d) => prefixed("Cannot parse parameter: ", d.as_str()),
            Error::MissingParameters => String::from_str("Missing parameter"),
            Error::WrongPassword => String::from_str("Wrong password"),
            Error::ArgonLibraryError(_) => String::from_str("Cannot verify password"),
            Error::QuestionNotFound => String::from_str("Question not found"),
            Error::DatabaseQueryError(_) => String::from_str("Query could not be executed"),
            Error::ExternalAPIError(d) => prefixed("Cannot execute: ", d.as_str()),
            Error::ClientError(l) => {
                let t = l.to_text();
                prefixed("External Client error: ", t.as_str())
            },
            Error::ServerError(l) => {
                let t = l.to_text();
                prefixed("External Server error: ", t.as_str())
            },
            Error::ReqwestAPIError(d) => prefixed("External API error: ", d.as_str()),
            Error::MiddlewareReqwestAPIError(d) => prefixed("External API error: ", d.as_str()),
        }
    }
}

} // verus!
