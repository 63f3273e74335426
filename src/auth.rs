//! Credentials at the engine's boundary: PIN verifiers (bcrypt), identifiers
//! as UUID text, bearer tokens and token claims.
use vstd::prelude::*;
use vstd::arithmetic::power::pow;
use crate::error::AppError;
use crate::model::{Claims, User};

verus! {

/// What `bcrypt::verify` answers for a PIN and a stored verifier: whether they
/// match, or `None` when the verifier is malformed.
pub uninterp spec fn bcrypt_verdict(pin: Seq<char>, verifier: Seq<char>) -> Option<bool>;

/// A lower-case hexadecimal digit.
pub open spec fn hex_digit(d: nat) -> char {
    "0123456789abcdef"@[d as int]
}

/// Hex digit `k` (0 to 31, most significant first) of `id`.
pub open spec fn uuid_nibble(id: u128, k: int) -> nat {
    ((id as nat) / (pow(16, (31 - k) as nat) as nat)) % 16
}

/// Which hex digit stands at position `i` of the hyphenated text.
pub open spec fn digit_at(i: int) -> int {
    if i < 8 {
        i
    } else if i < 13 {
        i - 1
    } else if i < 18 {
        i - 2
    } else if i < 23 {
        i - 3
    } else {
        i - 4
    }
}

/// The hyphenated lower-case text of the UUID whose bits are `id`: its 32
/// hex digits, most significant first, with `-` at positions 8, 13, 18, 23.
pub open spec fn uuid_text(id: u128) -> Seq<char> {
    Seq::new(
        36,
        |i: int|
            if i == 8 || i == 13 || i == 18 || i == 23 {
                '-'
            } else {
                hex_digit(uuid_nibble(id, digit_at(i)))
            },
    )
}

/// The UUID that `uuid::Uuid::parse_str` reads from a text, as its bits.
pub uninterp spec fn uuid_parse(text: Seq<char>) -> Option<u128>;

/// Relies on `bcrypt::verify`: it reads cost and salt from the verifier and
/// rehashes the PIN, so its answer depends on the two texts alone; an error
/// (malformed verifier) becomes `None`.
#[verifier::external_body]
fn bcrypt_check(pin: &str, verifier: &str) -> (r: Option<bool>)
    ensures
        r == bcrypt_verdict(pin@, verifier@),
{
    bcrypt::verify(pin, verifier).ok()
}

/// Relies on `bcrypt::hash` at `bcrypt::DEFAULT_COST`: a fresh random salt
/// each time, formatted as `$2b$12$`, 22 salt and 31 hash characters (60 in
/// all), which `bcrypt::verify` reads back and accepts for the same PIN; an
/// error (no randomness) becomes `None`.
#[verifier::external_body]
fn bcrypt_hash(pin: &str) -> (r: Option<String>)
    ensures
        r is Some ==> r->Some_0@.len() == 60,
        r is Some ==> bcrypt_verdict(pin@, r->Some_0@) == Some(true),
{
    bcrypt::hash(pin, bcrypt::DEFAULT_COST).ok()
}

/// Relies on `uuid::Uuid::from_u128` (the bits as big-endian bytes) and the
/// `Display` of `Uuid`, which writes the hyphenated lower-case form.
#[verifier::external_body]
fn uuid_string(id: u128) -> (r: String)
    ensures
        r@ == uuid_text(id),
        r@.len() == 36,
{
    uuid::Uuid::from_u128(id).to_string()
}

/// Relies on `uuid::Uuid::parse_str` and `Uuid::as_u128`; a parse error
/// becomes `None`.
#[verifier::external_body]
fn uuid_from_text(text: &str) -> (r: Option<u128>)
    ensures
        r == uuid_parse(text@),
{
    uuid::Uuid::parse_str(text).ok().map(|u| u.as_u128())
}

/// Relies on `uuid::Uuid::new_v4` and the hyphenated `Display` of `Uuid`: a
/// random identifier of 36 characters.
#[verifier::external_body]
fn random_uuid_string() -> (r: String)
    ensures
        r@.len() == 36,
{
    uuid::Uuid::new_v4().to_string()
}

/// A fresh random identifier, as hyphenated UUID text.
pub fn new_uuid_text() -> (r: String)
    ensures
        r@.len() == 36,
{
    random_uuid_string()
}

/// The UUID text of an identifier.
pub fn id_text(id: u128) -> (r: String)
    ensures
        r@ == uuid_text(id),
        r@.len() == 36,
{
    uuid_string(id)
}

pub open spec fn pin_length_ok(pin: &str) -> bool {
    4 <= pin.len() <= 12
}

/// A new PIN is 4 to 12 bytes long.
pub fn validate_new_pin(pin: &str) -> (r: Result<(), AppError>)
    ensures
        r is Ok <==> pin_length_ok(pin),
        r is Err ==> r->Err_0 is BadRequest && r->Err_0.msg() == "pin must be 4-12 digits"@,
{
    let n = pin.len();
    if n < 4 || n > 12 {
        return Err(AppError::bad_request("pin must be 4-12 digits"));
    }
    Ok(())
}

/// Checks a new PIN and makes its verifier, which then accepts that PIN. A
/// PIN of the wrong length is `BadRequest`; a hashing failure is `Internal`.
pub fn hash_new_pin(pin: &str) -> (r: Result<String, AppError>)
    ensures
        !pin_length_ok(pin) <==> r is Err && r->Err_0 is BadRequest,
        !pin_length_ok(pin) ==> r->Err_0.msg() == "pin must be 4-12 digits"@,
        pin_length_ok(pin) && r is Err ==> r->Err_0 is Internal && r->Err_0.msg() == "hash failed"@,
        r is Ok ==> r->Ok_0@.len() == 60 && bcrypt_verdict(pin@, r->Ok_0@) == Some(true),
{
    validate_new_pin(pin)?;
    match bcrypt_hash(pin) {
        Some(h) => Ok(h),
        None => Err(AppError::internal("hash failed")),
    }
}

/// What a PIN check amounts to, given the verdict of the verifier.
pub open spec fn pin_outcome_ok(verdict: Option<bool>) -> bool {
    verdict == Some(true)
}

/// Turns a verdict into the engine's outcome: a mismatch is `Unauthorized`
/// ("invalid pin"), a malformed verifier is `Internal`.
pub fn pin_outcome(verdict: Option<bool>) -> (r: Result<(), AppError>)
    ensures
        r is Ok <==> pin_outcome_ok(verdict),
        verdict == Some(false) ==> r->Err_0 is Unauthorized && r->Err_0.msg() == "invalid pin"@,
        verdict is None ==> r->Err_0 is Internal && r->Err_0.msg() == "pin verify failed"@,
{
    match verdict {
        Some(true) => Ok(()),
        Some(false) => Err(AppError::unauthorized("invalid pin")),
        None => Err(AppError::internal("pin verify failed")),
    }
}

/// Verifies the PIN supplied for a payment against the payer's verifier.
pub fn verify_pin(pin: &str, user: &User) -> (r: Result<(), AppError>)
    ensures
        r is Ok <==> pin_outcome_ok(bcrypt_verdict(pin@, user.pin_hash@)),
        bcrypt_verdict(pin@, user.pin_hash@) == Some(false) ==> r->Err_0 is Unauthorized
            && r->Err_0.msg() == "invalid pin"@,
        bcrypt_verdict(pin@, user.pin_hash@) is None ==> r->Err_0 is Internal
            && r->Err_0.msg() == "pin verify failed"@,
{
    let verdict = bcrypt_check(pin, user.pin_hash.as_str());
    pin_outcome(verdict)
}

/// Verifies the PIN of a login: a mismatch is `Unauthorized`
/// ("invalid credentials"), a malformed verifier is `Internal`.
pub fn check_login_pin(pin: &str, user: &User) -> (r: Result<(), AppError>)
    ensures
        r is Ok <==> bcrypt_verdict(pin@, user.pin_hash@) == Some(true),
        bcrypt_verdict(pin@, user.pin_hash@) == Some(false) ==> r->Err_0 is Unauthorized
            && r->Err_0.msg() == "invalid credentials"@,
        bcrypt_verdict(pin@, user.pin_hash@) is None ==> r->Err_0 is Internal
            && r->Err_0.msg() == "verify failed"@,
{
    match bcrypt_check(pin, user.pin_hash.as_str()) {
        Some(true) => Ok(()),
        Some(false) => Err(AppError::unauthorized("invalid credentials")),
        None => Err(AppError::internal("verify failed")),
    }
}

pub open spec fn bearer_prefix() -> Seq<char> {
    "Bearer "@
}

/// Takes the token out of an `Authorization` header of the form
/// `Bearer <token>`.
pub fn bearer_token(header: Option<&str>) -> (r: Result<String, AppError>)
    ensures
        header is None ==> r is Err && r->Err_0 is Unauthorized && r->Err_0.msg() == "missing authorization"@,
        header is Some ==> {
            let h = header->Some_0@;
            if h.len() >= 7 && h.take(7) == bearer_prefix() {
                r is Ok && r->Ok_0@ == h.skip(7)
            } else {
                r is Err && r->Err_0 is Unauthorized && r->Err_0.msg() == "invalid authorization"@
            }
        },
{
    let h = match header {
        None => return Err(AppError::unauthorized("missing authorization")),
        Some(h) => h,
    };
    let prefix = "Bearer ";
    proof {
        reveal_strlit("Bearer ");
    }
    let n = h.unicode_len();
    if n < 7 {
        return Err(AppError::unauthorized("invalid authorization"));
    }
    let mut i: usize = 0;
    while i < 7
        invariant
            i <= 7 <= n == h@.len(),
            header == Some(h),
            prefix@ == bearer_prefix(),
            prefix@.len() == 7,
            forall|j: int| 0 <= j < i ==> h@[j] == prefix@[j],
        decreases 7 - i,
    {
        if h.get_char(i) != prefix.get_char(i) {
            proof {
                assert(h@.take(7)[i as int] != bearer_prefix()[i as int]);
            }
            return Err(AppError::unauthorized("invalid authorization"));
        }
        i = i + 1;
    }
    proof {
        assert(h@.take(7) =~= bearer_prefix());
    }
    let rest = h.substring_char(7, n);
    Ok(String::from_str(rest))
}

/// The user that a token's subject names: the subject must be UUID text.
pub fn user_id_from_claims(claims: &Claims) -> (r: Result<u128, AppError>)
    ensures
        uuid_parse(claims.sub@) is Some ==> r == Ok::<u128, AppError>(uuid_parse(claims.sub@)->Some_0),
        uuid_parse(claims.sub@) is None ==> r is Err && r->Err_0 is Unauthorized && r->Err_0.msg() == "invalid token"@,
{
    match uuid_from_text(claims.sub.as_str()) {
        Some(id) => Ok(id),
        None => Err(AppError::unauthorized("invalid token")),
    }
}

/// The claims of a token issued at `now` for `ttl_secs` seconds, with a
/// fresh token id `jti`.
pub fn issue_claims(user_id: u128, now: usize, ttl_secs: usize, jti: String) -> (r: Claims)
    requires
        now + ttl_secs <= usize::MAX,
    ensures
        r.sub@ == uuid_text(user_id),
        r.iat == now,
        r.exp == now + ttl_secs,
        r.jti == jti,
{
    Claims { sub: uuid_string(user_id), exp: now + ttl_secs, iat: now, jti }
}

} // verus!
