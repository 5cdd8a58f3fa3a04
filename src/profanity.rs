use vstd::prelude::*;
use crate::error::{APILayerError, Error};
use crate::types::NewQuestion;

verus! {

/// The error envelope of the moderation service: `{message}`.
#[derive(Debug, Clone, PartialEq)]
pub struct APIResponse {
    pub message: String,
}

/// One word that the moderation service found.
#[derive(Debug, Clone, PartialEq)]
pub struct BadWord {
    pub original: String,
    pub word: String,
    pub deviations: i64,
    pub info: i64,
    pub replaced_len: i64,
}

/// The success envelope of the moderation service.
#[derive(Debug, Clone, PartialEq)]
pub struct BadWordsResponse {
    pub content: String,
    pub bad_words_total: i64,
    pub bad_words_list: Vec<BadWord>,
    pub censored_content: String,
}

/// What came of one call to the moderation service.
#[derive(Debug, PartialEq)]
pub enum ModerationReply {
    /// No response was obtained (name resolution, connection, timeout or
    /// protocol failure); holds the cause.
    Unreachable(String),
    /// A response came back with `status`; its body decoded as the error
    /// envelope (`fault`) and as the success envelope (`verdict`), or the
    /// decoder's complaint for each shape that it does not fit.
    Answered {
        status: u16,
        fault: Result<APIResponse, String>,
        verdict: Result<BadWordsResponse, String>,
    },
}

pub open spec fn is_success_status(status: u16) -> bool {
    200 <= status && status < 300
}

pub open spec fn is_client_error_status(status: u16) -> bool {
    400 <= status && status < 500
}

/// Whether `status` is in the 2xx range.
pub fn is_success(status: u16) -> (r: bool)
    ensures
        r == is_success_status(status),
{
    200 <= status && status < 300
}

/// Whether `status` is in the 4xx range.
pub fn is_client_error(status: u16) -> (r: bool)
    ensures
        r == is_client_error_status(status),
{
    400 <= status && status < 500
}

pub open spec fn layer_error(status: u16, envelope: APIResponse) -> APILayerError {
    APILayerError { status, message: envelope.message }
}

/// The classification of a reply of the moderation service: a transport
/// failure, or a body that does not decode as the envelope that its status
/// calls for, is a transport failure; a 2xx status gives the censored text; a
/// 4xx status a client fault and any other status a server fault, each with
/// the service's envelope.
pub open spec fn moderated(reply: ModerationReply) -> Result<String, Error> {
    match reply {
        ModerationReply::Unreachable(d) => Err(Error::ExternalAPIError(d)),
        ModerationReply::Answered { status, fault, verdict } => if is_success_status(status) {
            match verdict {
                Ok(v) => Ok(v.censored_content),
                Err(d) => Err(Error::ExternalAPIError(d)),
            }
        } else {
            match fault {
                Ok(envelope) => if is_client_error_status(status) {
                    Err(Error::ClientError(layer_error(status, envelope)))
                } else {
                    Err(Error::ServerError(layer_error(status, envelope)))
                },
                Err(d) => Err(Error::ExternalAPIError(d)),
            }
        },
    }
}

/// The classification is exhaustive: a reply with a success status and a
/// decodable success envelope yields its censored text, a 4xx reply with an
/// envelope a client fault with the envelope's message, a 5xx reply with an
/// envelope a server fault, and a call without a response a transport failure.
pub proof fn lemma_moderation_classification(reply: ModerationReply)
    ensures
        reply matches ModerationReply::Answered { status, verdict: Ok(v), .. } ==> (
        is_success_status(status) ==> moderated(reply) == Ok::<String, Error>(v.censored_content)),
        reply matches ModerationReply::Answered { status, fault: Ok(envelope), .. } ==> (
        is_client_error_status(status) ==> moderated(reply) == Err::<String, Error>(
            Error::ClientError(APILayerError { status, message: envelope.message }),
        )),
        reply matches ModerationReply::Answered { status, fault: Ok(envelope), .. } ==> (500
            <= status < 600 ==> moderated(reply) == Err::<String, Error>(
            Error::ServerError(APILayerError { status, message: envelope.message }),
        )),
        reply matches ModerationReply::Unreachable(d) ==> moderated(reply) == Err::<
            String,
            Error,
        >(Error::ExternalAPIError(d)),
{
}

/// Pairs the status of a failed moderation call with the service's envelope.
pub fn transform_error(status: u16, envelope: APIResponse) -> (r: APILayerError)
    ensures
        r == layer_error(status, envelope),
{
    APILayerError { status, message: envelope.message }
}

/// Classifies the reply of the moderation service and, on success, returns
/// the censored text.
pub fn check_profanity(reply: ModerationReply) -> (r: Result<String, Error>)
    ensures
        r == moderated(reply),
{
    match reply {
        ModerationReply::Unreachable(d) => Err(Error::ExternalAPIError(d)),
        ModerationReply::Answered { status, fault, verdict } => {
            if !is_success(status) {
                match fault {
                    Ok(envelope) => {
                        let err = transform_error(status, envelope);
                        if is_client_error(status) {
                            Err(Error::ClientError(err))
                        } else {
                            Err(Error::ServerError(err))
                        }
                    },
                    Err(d) => Err(Error::ExternalAPIError(d)),
                }
            } else {
                match verdict {
                    Ok(v) => Ok(v.censored_content),
                    Err(d) => Err(Error::ExternalAPIError(d)),
                }
            }
        },
    }
}

/// Replaces the content of a question with the censored text of the
/// moderation reply, or passes the reply's failure on.
pub fn censor_question(question: NewQuestion, reply: ModerationReply) -> (r: Result<
    NewQuestion,
    Error,
>)
    ensures
        match moderated(reply) {
            Ok(c) => r == Ok::<NewQuestion, Error>(
                NewQuestion { title: question.title, content: c, tags: question.tags },
            ),
            Err(e) => r == Err::<NewQuestion, Error>(e),
        },
{
    match check_profanity(reply) {
        Ok(content) => Ok(NewQuestion { title: question.title, content, tags: question.tags }),
        Err(e) => Err(e),
    }
}

} // verus!
