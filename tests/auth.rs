use practical_rust_book::auth::{
    check_password, claims_at_time, hash_password, issue_token, login, login_token, register,
    token_claims,
    Timestamp, TOKEN_VALIDITY_SECS,
};
use practical_rust_book::error::{DbFailure, Error};
use practical_rust_book::recovery::{return_error, Failure};
use practical_rust_book::types::{Account, AccountId};

fn account(id: Option<i32>, email: &str, password: &str) -> Account {
    Account { id: id.map(AccountId), email: email.to_string(), password: password.to_string() }
}

#[test]
fn hash_verifies_against_same_password() {
    let hash = hash_password(b"right");
    assert!(hash.starts_with("$argon2i$"));
    let stored = account(Some(7), "a@x.com", &hash);
    let r = login(&stored, &account(None, "a@x.com", "right"));
    assert_eq!(r.unwrap(), AccountId(7));
}

#[test]
fn hashes_of_same_password_differ() {
    let a = hash_password(b"secret");
    let b = hash_password(b"secret");
    assert_ne!(a, b);
}

#[test]
fn hash_rejects_other_password() {
    let hash = hash_password(b"right");
    let stored = account(Some(1), "a@x.com", &hash);
    assert!(matches!(login(&stored, &account(None, "a@x.com", "Right")), Err(Error::WrongPassword)));
    assert!(matches!(login(&stored, &account(None, "a@x.com", "")), Err(Error::WrongPassword)));
}

#[test]
fn wrong_password_login_is_unauthorized() {
    let stored = account(Some(3), "a@x.com", &hash_password(b"right"));
    let err = login(&stored, &account(None, "a@x.com", "wrong")).unwrap_err();
    assert!(matches!(err, Error::WrongPassword));
    let r = return_error(&Failure::Domain(err));
    assert_eq!(r.status, 401);
    assert_eq!(r.body, "Wrong E-Mail/Password combination");
}

#[test]
fn malformed_hash_is_library_failure() {
    let stored = account(Some(3), "a@x.com", "not a hash");
    let err = login(&stored, &account(None, "a@x.com", "right")).unwrap_err();
    assert!(matches!(err, Error::ArgonLibraryError(_)));
    let r = return_error(&Failure::Domain(err));
    assert_eq!(r.status, 422);
    assert_eq!(r.body, "Cannot verify password");
}

#[test]
fn register_replaces_password_with_hash() {
    let pending = account(None, "new@x.com", "hunter2");
    let ready = register(pending);
    assert_eq!(ready.id, None);
    assert_eq!(ready.email, "new@x.com");
    assert_ne!(ready.password, "hunter2");
    assert!(ready.password.starts_with("$argon2i$"));
    let stored = Account { id: Some(AccountId(9)), ..ready };
    assert_eq!(login(&stored, &account(None, "new@x.com", "hunter2")).unwrap(), AccountId(9));
}

#[test]
fn register_duplicate_email_is_account_exists() {
    let _ready = register(account(None, "a@x.com", "pw"));
    let err = Error::DatabaseQueryError(DbFailure { code: Some("23505".to_string()) });
    let r = return_error(&Failure::Domain(err));
    assert_eq!(r.status, 422);
    assert_eq!(r.body, "Account already exists");
}

#[test]
fn token_window_is_one_day() {
    let issued = Timestamp { secs: 1_700_000_000, nanos: 250 };
    let c = token_claims(AccountId(5), issued);
    assert_eq!(c.account_id, AccountId(5));
    assert_eq!(c.not_before, issued);
    assert_eq!(c.expiration, Timestamp { secs: 1_700_086_400, nanos: 250 });
    assert_eq!(c.expiration.secs - c.not_before.secs, TOKEN_VALIDITY_SECS);
    assert_eq!(TOKEN_VALIDITY_SECS, 86_400);
}

#[test]
fn token_is_issued_with_valid_key() {
    let token = issue_token(b"RANDOM WORDS WINTER MACINTOSH PC", AccountId(1)).unwrap();
    assert!(token.starts_with("v2.local."));
}

#[test]
fn tokens_differ_between_calls() {
    let key = b"RANDOM WORDS WINTER MACINTOSH PC";
    let a = issue_token(key, AccountId(1)).unwrap();
    let b = issue_token(key, AccountId(2)).unwrap();
    assert_ne!(a, b);
}

#[test]
fn token_needs_a_32_byte_key() {
    assert!(issue_token(b"short", AccountId(1)).is_none());
}

#[test]
fn check_password_round_trip() {
    let hash = hash_password(b"correct horse");
    assert!(check_password(&hash, b"correct horse").unwrap());
    assert!(!check_password(&hash, b"correct horsE").unwrap());
}

#[test]
fn check_password_on_malformed_hash() {
    assert!(matches!(check_password("$argon2i$broken", b"pw"), Err(Error::ArgonLibraryError(_))));
}

#[test]
fn claims_at_time_in_range() {
    let issued = Timestamp { secs: 1_700_000_000, nanos: 5 };
    let c = claims_at_time(AccountId(4), issued).unwrap();
    assert_eq!(c, token_claims(AccountId(4), issued));
    assert_eq!(c.expiration, Timestamp { secs: 1_700_086_400, nanos: 5 });
}

#[test]
fn claims_at_time_at_the_edge() {
    let last = Timestamp { secs: i64::MAX - TOKEN_VALIDITY_SECS, nanos: 0 };
    let c = claims_at_time(AccountId(1), last).unwrap();
    assert_eq!(c.expiration.secs, i64::MAX);
    let beyond = Timestamp { secs: i64::MAX - TOKEN_VALIDITY_SECS + 1, nanos: 0 };
    assert!(claims_at_time(AccountId(1), beyond).is_none());
}

#[test]
fn login_token_issues_only_on_match() {
    let key = b"RANDOM WORDS WINTER MACINTOSH PC";
    let stored = account(Some(11), "a@x.com", &hash_password(b"right"));
    let token = login_token(key, &stored, &account(None, "a@x.com", "right")).unwrap().unwrap();
    assert!(token.starts_with("v2.local."));
    let err = login_token(key, &stored, &account(None, "a@x.com", "wrong")).unwrap_err();
    assert!(matches!(err, Error::WrongPassword));
}

#[test]
fn login_token_with_short_key_gives_no_token() {
    let stored = account(Some(11), "a@x.com", &hash_password(b"right"));
    assert_eq!(login_token(b"short", &stored, &account(None, "a@x.com", "right")).unwrap(), None);
}
