use practical_rust_book::error::Error;
use practical_rust_book::profanity::{
    censor_question, check_profanity, is_client_error, is_success, transform_error, APIResponse,
    BadWord, BadWordsResponse, ModerationReply,
};
use practical_rust_book::recovery::{return_error, Failure};
use practical_rust_book::types::NewQuestion;

fn verdict(censored: &str) -> BadWordsResponse {
    BadWordsResponse {
        content: "a list with shit words".to_string(),
        bad_words_total: 1,
        bad_words_list: vec![BadWord {
            original: "shit".to_string(),
            word: "shit".to_string(),
            deviations: 0,
            info: 2,
            replaced_len: 4,
        }],
        censored_content: censored.to_string(),
    }
}

fn envelope(message: &str) -> APIResponse {
    APIResponse { message: message.to_string() }
}

#[test]
fn success_yields_censored_content() {
    let reply = ModerationReply::Answered {
        status: 200,
        fault: Err("missing field `message`".to_string()),
        verdict: Ok(verdict("a list with **** words")),
    };
    assert_eq!(check_profanity(reply).unwrap(), "a list with **** words");
}

#[test]
fn client_status_yields_client_fault() {
    let reply = ModerationReply::Answered {
        status: 400,
        fault: Ok(envelope("Invalid body")),
        verdict: Err("missing field `content`".to_string()),
    };
    match check_profanity(reply) {
        Err(Error::ClientError(e)) => {
            assert_eq!(e.status, 400);
            assert_eq!(e.message, "Invalid body");
        },
        other => panic!("unexpected {:?}", other),
    }
}

#[test]
fn server_status_yields_server_fault_recovered() {
    let reply = ModerationReply::Answered {
        status: 503,
        fault: Ok(envelope("Service unavailable")),
        verdict: Err("missing field `content`".to_string()),
    };
    let err = check_profanity(reply).unwrap_err();
    match &err {
        Error::ServerError(e) => {
            assert_eq!(e.status, 503);
            assert_eq!(e.message, "Service unavailable");
        },
        other => panic!("unexpected {:?}", other),
    }
    let r = return_error(&Failure::Domain(err));
    assert_eq!(r.status, 422);
    assert_eq!(r.body, "External Server error: Status: 503, Message: Service unavailable");
}

#[test]
fn unreachable_yields_transport_failure() {
    let reply = ModerationReply::Unreachable("connection refused".to_string());
    assert!(matches!(check_profanity(reply), Err(Error::ExternalAPIError(d)) if d == "connection refused"));
}

#[test]
fn undecodable_success_body_is_transport_failure() {
    let reply = ModerationReply::Answered {
        status: 200,
        fault: Err("expected value".to_string()),
        verdict: Err("expected value".to_string()),
    };
    let err = check_profanity(reply).unwrap_err();
    assert!(matches!(&err, Error::ExternalAPIError(_)));
    assert_eq!(return_error(&Failure::Domain(err)).status, 500);
}

#[test]
fn undecodable_fault_body_is_transport_failure() {
    let reply = ModerationReply::Answered {
        status: 502,
        fault: Err("expected value".to_string()),
        verdict: Err("expected value".to_string()),
    };
    assert!(matches!(check_profanity(reply), Err(Error::ExternalAPIError(_))));
}

#[test]
fn redirect_status_is_server_fault() {
    let reply = ModerationReply::Answered {
        status: 302,
        fault: Ok(envelope("moved")),
        verdict: Err("missing field".to_string()),
    };
    assert!(matches!(check_profanity(reply), Err(Error::ServerError(e)) if e.status == 302));
}

#[test]
fn status_ranges() {
    assert!(is_success(200));
    assert!(is_success(299));
    assert!(!is_success(300));
    assert!(!is_success(199));
    assert!(is_client_error(400));
    assert!(is_client_error(499));
    assert!(!is_client_error(500));
    assert!(!is_client_error(399));
}

#[test]
fn transform_error_keeps_status_and_message() {
    let e = transform_error(429, envelope("Too many requests"));
    assert_eq!(e.status, 429);
    assert_eq!(e.message, "Too many requests");
}

#[test]
fn question_content_is_censored() {
    let q = NewQuestion {
        title: "Title".to_string(),
        content: "a list with shit words".to_string(),
        tags: Some(vec!["faq".to_string()]),
    };
    let reply = ModerationReply::Answered {
        status: 200,
        fault: Err("missing field `message`".to_string()),
        verdict: Ok(verdict("a list with **** words")),
    };
    let censored = censor_question(q, reply).unwrap();
    assert_eq!(censored.title, "Title");
    assert_eq!(censored.content, "a list with **** words");
    assert_eq!(censored.tags, Some(vec!["faq".to_string()]));
}

#[test]
fn question_is_refused_on_fault() {
    let q = NewQuestion { title: "T".to_string(), content: "c".to_string(), tags: None };
    let reply = ModerationReply::Answered {
        status: 401,
        fault: Ok(envelope("No API key found in request")),
        verdict: Err("missing field".to_string()),
    };
    assert!(matches!(censor_question(q, reply), Err(Error::ClientError(_))));
}
