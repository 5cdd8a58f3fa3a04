use vstd::prelude::*;
use vstd::utf8::encode_utf8;
use argon2::Error as ArgonError;
use crate::error::Error;
use crate::types::{Account, AccountId};

verus! {

/// How long an issued token stays valid, in seconds (one day).
pub const TOKEN_VALIDITY_SECS: i64 = 86400;

/// A point in time: seconds since the Unix epoch and the nanoseconds within
/// that second.
#[derive(Debug, Clone, Copy, PartialEq, Eq)]
pub struct Timestamp {
    pub secs: i64,
    pub nanos: u32,
}

/// The claims that a token carries.
#[derive(Debug, Clone, Copy, PartialEq, Eq)]
pub struct TokenClaims {
    pub account_id: AccountId,
    pub not_before: Timestamp,
    pub expiration: Timestamp,
}

/// The encoded hash that argon2 derives from a password and a salt under its
/// default configuration.
pub uninterp spec fn argon2_encoded(password: Seq<u8>, salt: Seq<u8>) -> Seq<char>;

/// What argon2 answers when asked whether a password matches an encoded
/// hash: `None` when it cannot tell (a malformed hash).
pub uninterp spec fn argon2_verdict(encoded: Seq<char>, password: Seq<u8>) -> Option<bool>;

/// Relies on `rand::random::<[u8; 32]>`: 32 bytes from the thread-local,
/// cryptographically secure generator.
#[verifier::external_body]
fn random_salt() -> (r: [u8; 32]) {
    rand::random::<[u8; 32]>()
}

/// Relies on `argon2::hash_encoded` with `argon2::Config::default()`. With
/// that configuration it fails only on a salt shorter than 8 or longer than
/// 2^32 - 1 bytes, or a password longer than 2^32 - 1 bytes; the string it
/// returns embeds variant, cost and salt, so that `argon2::verify_encoded`
/// decodes it, answers for any password within argon2's length limit, and
/// accepts the same password against it.
#[verifier::external_body]
fn hash_encoded(password: &[u8], salt: &[u8]) -> (r: Result<String, ArgonError>)
    ensures
        r is Ok <==> (8 <= salt@.len() <= u32::MAX && password@.len() <= u32::MAX),
        r matches Ok(h) ==> h@ == argon2_encoded(password@, salt@),
        r matches Ok(h) ==> argon2_verdict(h@, password@) == Some(true),
        r matches Ok(h) ==> forall|q: Seq<u8>|
            q.len() <= u32::MAX ==> (#[trigger] argon2_verdict(h@, q)) is Some,
{
    argon2::hash_encoded(password, salt, &argon2::Config::default())
}

/// Relies on `argon2::verify_encoded`: whether `password` matches the encoded
/// hash, or an error when the hash cannot be decoded.
#[verifier::external_body]
fn verify_password(hash: &str, password: &[u8]) -> (r: Result<bool, ArgonError>)
    ensures
        r is Ok <==> argon2_verdict(hash@, password@) is Some,
        r matches Ok(b) ==> argon2_verdict(hash@, password@) == Some(b),
{
    argon2::verify_encoded(hash, password)
}

/// Whether `password` matches the encoded hash; a hash that cannot be
/// decoded is a failure of the credential library.
pub fn check_password(hash: &str, password: &[u8]) -> (r: Result<bool, Error>)
    ensures
        argon2_verdict(hash@, password@) matches Some(b) ==> r == Ok::<bool, Error>(b),
        argon2_verdict(hash@, password@) is None ==> r matches Err(Error::ArgonLibraryError(_)),
{
    match verify_password(hash, password) {
        Ok(b) => Ok(b),
        Err(e) => Err(Error::ArgonLibraryError(e)),
    }
}

/// `hash` is an argon2 hash of `password` under some 32-byte salt.
pub open spec fn is_salted_hash_of(hash: Seq<char>, password: Seq<u8>) -> bool {
    exists|salt: Seq<u8>|
        salt.len() == 32 && hash == #[trigger] argon2_encoded(password, salt)
}

/// Hashes a clear-text password under a fresh random salt. The result is
/// self-describing: it verifies against the same password, and it can be
/// checked against any password without a failure of the library.
pub fn hash_password(password: &[u8]) -> (r: String)
    requires
        password@.len() <= u32::MAX,
    ensures
        is_salted_hash_of(r@, password@),
        argon2_verdict(r@, password@) == Some(true),
        forall|q: Seq<u8>| q.len() <= u32::MAX ==> (#[trigger] argon2_verdict(r@, q)) is Some,
{
    let salt = random_salt();
    match hash_encoded(password, salt.as_slice()) {
        Ok(h) => h,
        Err(_) => {
            proof {
                assert(false);
            }
            String::new()
        },
    }
}

/// The bytes of a clear-text password as it is hashed and checked.
pub open spec fn password_bytes(password: Seq<char>) -> Seq<u8> {
    encode_utf8(password)
}

/// Prepares an account for storage: the clear-text password is replaced by
/// its salted hash.
pub fn register(account: Account) -> (r: Account)
    requires
        password_bytes(account.password@).len() <= u32::MAX,
    ensures
        r.id == account.id,
        r.email == account.email,
        is_salted_hash_of(r.password@, password_bytes(account.password@)),
        argon2_verdict(r.password@, password_bytes(account.password@)) == Some(true),
        forall|q: Seq<u8>|
            q.len() <= u32::MAX ==> (#[trigger] argon2_verdict(r.password@, q)) is Some,
{
    let hashed_password = hash_password(account.password.as_str().as_bytes());
    Account { id: account.id, email: account.email, password: hashed_password }
}

/// Checks the password of a login attempt against the stored account, and
/// returns the account to which a token is to be issued.
pub fn login(stored: &Account, credentials: &Account) -> (r: Result<AccountId, Error>)
    requires
        stored.id is Some,
    ensures
        argon2_verdict(stored.password@, password_bytes(credentials.password@)) == Some(true)
            ==> r == Ok::<AccountId, Error>(stored.id.unwrap()),
        argon2_verdict(stored.password@, password_bytes(credentials.password@)) == Some(false)
            ==> r == Err::<AccountId, Error>(Error::WrongPassword),
        argon2_verdict(stored.password@, password_bytes(credentials.password@)) is None
            ==> r matches Err(Error::ArgonLibraryError(_)),
{
    match check_password(stored.password.as_str(), credentials.password.as_str().as_bytes()) {
        Ok(verified) => {
            if verified {
                Ok(stored.id.unwrap())
            } else {
                Err(Error::WrongPassword)
            }
        },
        Err(e) => Err(e),
    }
}

/// The claims of a token issued at `issued`: valid from then on, for one day.
pub open spec fn claims_at(account_id: AccountId, issued: Timestamp) -> TokenClaims {
    TokenClaims {
        account_id,
        not_before: issued,
        expiration: Timestamp { secs: (issued.secs + TOKEN_VALIDITY_SECS) as i64, nanos: issued.nanos },
    }
}

/// `a` is strictly later than `b`.
pub open spec fn is_later(a: Timestamp, b: Timestamp) -> bool {
    a.secs > b.secs || (a.secs == b.secs && a.nanos > b.nanos)
}

/// The claims of a token issued at `issued` for `account_id`.
pub fn token_claims(account_id: AccountId, issued: Timestamp) -> (r: TokenClaims)
    requires
        issued.secs <= i64::MAX - TOKEN_VALIDITY_SECS,
    ensures
        r == claims_at(account_id, issued),
{
    TokenClaims {
        account_id,
        not_before: issued,
        expiration: Timestamp { secs: issued.secs + TOKEN_VALIDITY_SECS, nanos: issued.nanos },
    }
}

/// The claims of a token issued at the clock reading `issued`, or `None` when
/// the expiration one day later would not be representable.
pub fn claims_at_time(account_id: AccountId, issued: Timestamp) -> (r: Option<TokenClaims>)
    ensures
        r is None <==> issued.secs > i64::MAX - TOKEN_VALIDITY_SECS,
        r matches Some(c) ==> c == claims_at(account_id, issued),
{
    if issued.secs > i64::MAX - TOKEN_VALIDITY_SECS {
        None
    } else {
        Some(token_claims(account_id, issued))
    }
}

/// The validity window of every token is exactly one day, and a token
/// expires strictly after it becomes valid.
pub proof fn lemma_token_window(account_id: AccountId, issued: Timestamp)
    requires
        issued.secs <= i64::MAX - TOKEN_VALIDITY_SECS,
    ensures
        claims_at(account_id, issued).expiration.secs - claims_at(account_id, issued).not_before.secs
            == TOKEN_VALIDITY_SECS,
        claims_at(account_id, issued).expiration.nanos == claims_at(account_id, issued).not_before.nanos,
        is_later(claims_at(account_id, issued).expiration, claims_at(account_id, issued).not_before),
{
}

/// Relies on chrono's `Utc::now`, read back through `DateTime::timestamp` and
/// `DateTime::timestamp_subsec_nanos`.
#[verifier::external_body]
fn current_time() -> (r: Timestamp) {
    let now = chrono::Utc::now();
    Timestamp { secs: now.timestamp(), nanos: now.timestamp_subsec_nanos() }
}

/// Relies on paseto's `PasetoBuilder` (v2.local): the claims `exp`, `nbf` and
/// `account_id` encrypted under `key`, with the two times converted by
/// chrono's `DateTime::from_timestamp` (`None` out of chrono's range).
/// `build` refuses a key that is not 32 bytes long, and fails when the
/// system's random generator does.
#[verifier::external_body]
fn encrypt_token(key: &[u8], claims: &TokenClaims) -> (r: Option<String>)
    ensures
        r is Some ==> key@.len() == 32,
{
    let exp = chrono::DateTime::from_timestamp(claims.expiration.secs, claims.expiration.nanos)?;
    let nbf = chrono::DateTime::from_timestamp(claims.not_before.secs, claims.not_before.nanos)?;
    paseto::tokens::PasetoBuilder::new()
        .set_encryption_key(key)
        .set_expiration(&exp)
        .set_not_before(&nbf)
        .set_claim("account_id", serde_json::Value::from(claims.account_id.0))
        .build()
        .ok()
}

/// Issues an encrypted token for `account_id`, valid for one day from now.
/// `None` when the token library cannot build one (a key that is not 32
/// bytes long, a clock beyond the representable range, or a failing random
/// generator).
pub fn issue_token(key: &[u8], account_id: AccountId) -> (r: Option<String>)
    ensures
        r is Some ==> key@.len() == 32,
{
    let issued = current_time();
    match claims_at_time(account_id, issued) {
        Some(claims) => encrypt_token(key, &claims),
        None => None,
    }
}

/// A login attempt from start to token: the password is checked against the
/// stored account, and only when it matches is a token issued for that
/// account. `Ok(None)` when the password matched but the token library could
/// not build a token.
pub fn login_token(key: &[u8], stored: &Account, credentials: &Account) -> (r: Result<
    Option<String>,
    Error,
>)
    requires
        stored.id is Some,
    ensures
        argon2_verdict(stored.password@, password_bytes(credentials.password@)) == Some(true)
            ==> r is Ok,
        argon2_verdict(stored.password@, password_bytes(credentials.password@)) == Some(false)
            ==> r == Err::<Option<String>, Error>(Error::WrongPassword),
        argon2_verdict(stored.password@, password_bytes(credentials.password@)) is None
            ==> r matches Err(Error::ArgonLibraryError(_)),
        r matches Ok(Some(_)) ==> key@.len() == 32,
{
    match login(stored, credentials) {
        Ok(account_id) => Ok(issue_token(key, account_id)),
        Err(e) => Err(e),
    }
}

} // verus!
