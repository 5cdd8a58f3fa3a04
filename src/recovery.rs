use vstd::prelude::*;
use vstd::string::*;
use crate::error::{message, DbFailure, Error};

verus! {

pub const UNAUTHORIZED: u16 = 401;
pub const FORBIDDEN: u16 = 403;
pub const NOT_FOUND: u16 = 404;
pub const UNPROCESSABLE_ENTITY: u16 = 422;
pub const INTERNAL_SERVER_ERROR: u16 = 500;

/// The final, unhandled failure of one request.
#[derive(Debug)]
pub enum Failure {
    /// A failure of the request's own logic.
    Domain(Error),
    /// The framework refused a cross-origin request; holds its message.
    CorsForbidden(String),
    /// The framework could not decode the request body; holds its message.
    BodyDeserialize(String),
    /// No route matched the request.
    Unmatched,
}

/// The status and plain-text body sent back for a failed request.
#[derive(Debug, Clone, PartialEq)]
pub struct RejectionOutcome {
    pub status: u16,
    pub body: String,
}

/// The failure is a violation of a uniqueness constraint: the database
/// reported the code `23505`.
pub open spec fn is_unique_violation(f: DbFailure) -> bool {
    match f.code {
        Some(c) => c@ == "23505"@,
        None => false,
    }
}

impl DbFailure {
    /// Whether the database reported a uniqueness violation (a duplicate key).
    pub fn is_duplicate_key(&self) -> (r: bool)
        ensures
            r == is_unique_violation(*self),
    {
        match &self.code {
            Some(c) => {
                let duplicate = String::from_str("23505");
                *c == duplicate
            },
            None => false,
        }
    }
}

/// The status that each failure is answered with.
pub open spec fn recovered_status(f: Failure) -> u16 {
    match f {
        Failure::Domain(e) => match e {
            Error::WrongPassword => UNAUTHORIZED,
            Error::ExternalAPIError(_) => INTERNAL_SERVER_ERROR,
            Error::ReqwestAPIError(_) => INTERNAL_SERVER_ERROR,
            Error::MiddlewareReqwestAPIError(_) => INTERNAL_SERVER_ERROR,
            _ => UNPROCESSABLE_ENTITY,
        },
        Failure::CorsForbidden(_) => FORBIDDEN,
        Failure::BodyDeserialize(_) => UNPROCESSABLE_ENTITY,
        Failure::Unmatched => NOT_FOUND,
    }
}

/// The plain-text body that each failure is answered with.
pub open spec fn recovered_body(f: Failure) -> Seq<char> {
    match f {
        Failure::Domain(e) => match e {
            Error::WrongPassword => "Wrong E-Mail/Password combination"@,
            Error::DatabaseQueryError(d) => if is_unique_violation(d) {
                "Account already exists"@
            } else {
                "Cannot update data"@
            },
            Error::ExternalAPIError(_) => "Internal Server Error"@,
            Error::ReqwestAPIError(_) => "Internal Server Error"@,
            Error::MiddlewareReqwestAPIError(_) => "Internal Server Error"@,
            _ => message(e),
        },
        Failure::CorsForbidden(m) => m@,
        Failure::BodyDeserialize(m) => m@,
        Failure::Unmatched => "Route not found"@,
    }
}

/// Recovery is total over the closed set of failures: each one gets exactly
/// one of the statuses of the mapping table, a persistence failure one of two
/// fixed messages, and a transport failure of a dependency a fixed message
/// that holds none of its detail.
pub proof fn lemma_recovery_total(f: Failure)
    ensures
        recovered_status(f) == UNAUTHORIZED || recovered_status(f) == FORBIDDEN
            || recovered_status(f) == NOT_FOUND || recovered_status(f) == UNPROCESSABLE_ENTITY
            || recovered_status(f) == INTERNAL_SERVER_ERROR,
        f matches Failure::Domain(Error::DatabaseQueryError(_)) ==> (recovered_status(f)
            == UNPROCESSABLE_ENTITY && (recovered_body(f) == "Account already exists"@
            || recovered_body(f) == "Cannot update data"@)),
        f matches Failure::Domain(Error::ExternalAPIError(_)) ==> (recovered_status(f)
            == INTERNAL_SERVER_ERROR && recovered_body(f) == "Internal Server Error"@),
{
}

fn outcome(status: u16, body: &str) -> (r: RejectionOutcome)
    ensures
        r.status == status,
        r.body@ == body@,
{
    RejectionOutcome { status, body: String::from_str(body) }
}

/// Turns the final failure of a request into the response sent back.
pub fn return_error(f: &Failure) -> (r: RejectionOutcome)
    ensures
        r.status == recovered_status(*f),
        r.body@ == recovered_body(*f),
{
    match f {
        Failure::Domain(e) => match e {
            Error::WrongPassword => outcome(UNAUTHORIZED, "Wrong E-Mail/Password combination"),
            Error::DatabaseQueryError(d) => {
                if d.is_duplicate_key() {
                    outcome(UNPROCESSABLE_ENTITY, "Account already exists")
                } else {
                    outcome(UNPROCESSABLE_ENTITY, "Cannot update data")
                }
            },
            Error::ExternalAPIError(_) => outcome(INTERNAL_SERVER_ERROR, "Internal Server Error"),
            Error::ReqwestAPIError(_) => outcome(INTERNAL_SERVER_ERROR, "Internal Server Error"),
            Error::MiddlewareReqwestAPIError(_) => outcome(
                INTERNAL_SERVER_ERROR,
                "Internal Server Error",
            ),
            _ => RejectionOutcome { status: UNPROCESSABLE_ENTITY, body: e.to_text() },
        },
        Failure::CorsForbidden(m) => outcome(FORBIDDEN, m.as_str()),
        Failure::BodyDeserialize(m) => outcome(UNPROCESSABLE_ENTITY, m.as_str()),
        Failure::Unmatched => outcome(NOT_FOUND, "Route not found"),
    }
}

} // verus!
