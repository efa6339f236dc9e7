//! Bearer tokens: a claim of identity with an expiry, written as JSON and
//! wrapped in base64. The token carries no signature, so it proves nothing
//! about who sent it; it is a stand-in for a real credential.
//!
//! Reading a token takes three steps. [`auth_middleware`] takes the header
//! apart and unwraps the token's text; the caller reads the claim out of that
//! JSON text; [`ICPAuth::verify_icp_token`] judges the claim.

use crate::clock::now;
use crate::handlers::UNAUTHORIZED;
use crate::ids::hex_char;
use crate::models::{ErrorResponse, ICPAuthClaim};
use crate::text::{contains_char, int_text, push_int, strip_prefix};
use vstd::prelude::*;
use vstd::string::{StringExecFns, StringSliceAdditionalSpecFns};
use vstd::utf8::{decode_utf8, encode_utf8, valid_utf8};

verus! {

/// How long a mock token stays valid, in seconds.
pub const MOCK_TOKEN_LIFETIME: i64 = 3600;

/// Why a request was not let in.
#[derive(Debug, PartialEq, Eq, Structural)]
pub enum AuthError {
    /// The request has no authorization header, or one that is not text.
    MissingHeader,
    /// The header does not start with `Bearer `.
    InvalidScheme,
    /// The token is not base64.
    InvalidBase64,
    /// The token's bytes are not UTF-8.
    InvalidUtf8,
    /// The token's text is not a claim.
    InvalidFormat,
    /// The claim has expired.
    Expired,
    /// The claim's principal does not look like one.
    InvalidPrincipal,
}

/// The bytes that a base64 text stands for, in the standard alphabet with
/// padding; nothing where the text is not such base64.
pub uninterp spec fn base64_bytes(text: Seq<char>) -> Option<Seq<u8>>;

/// The base64 text of some bytes, in the standard alphabet with padding.
pub uninterp spec fn base64_text(bytes: Seq<u8>) -> Seq<char>;

/// The length of the base64 text of `n` bytes: four characters for every
/// three bytes, the last group padded.
pub open spec fn base64_len(n: nat) -> nat {
    n / 3 * 4 + if n % 3 > 0 {
        4nat
    } else {
        0nat
    }
}

/// Decodes with `base64::engine::general_purpose::STANDARD.decode`.
///
/// Trusted: the result depends on the text alone; [`base64_bytes`] names it.
/// Every failure of the decoder is reported as nothing.
#[verifier::external_body]
fn base64_decode(text: &str) -> (bytes: Option<Vec<u8>>)
    ensures
        match bytes {
            Some(b) => base64_bytes(text@) == Some(b@),
            None => base64_bytes(text@) is None,
        },
{
    base64::Engine::decode(&base64::engine::general_purpose::STANDARD, text).ok()
}

/// Asks `base64::encoded_len` for the length of a padded encoding.
///
/// Trusted: the base64 crate computes [`base64_len`] with checked
/// arithmetic and answers nothing where it does not fit a `usize`.
#[verifier::external_body]
fn base64_encoded_len(n: usize) -> (len: Option<usize>)
    ensures
        match len {
            Some(l) => l == base64_len(n as nat),
            None => base64_len(n as nat) > usize::MAX,
        },
{
    base64::encoded_len(n, true)
}

/// Encodes with `base64::engine::general_purpose::STANDARD.encode`.
///
/// Trusted: the result depends on the bytes alone; [`base64_text`] names it.
/// The encoder panics where the text's length does not fit a `usize`, so
/// such bytes are not admitted.
#[verifier::external_body]
fn base64_encode(bytes: &[u8]) -> (text: String)
    requires
        base64_len(bytes@.len()) <= usize::MAX,
    ensures
        text@ == base64_text(bytes@),
{
    base64::Engine::encode(&base64::engine::general_purpose::STANDARD, bytes)
}

/// Reads bytes as text with `String::from_utf8`.
///
/// Trusted: std accepts exactly the byte strings that are valid UTF-8, and
/// the text it returns is the one those bytes encode.
#[verifier::external_body]
fn utf8_text(bytes: Vec<u8>) -> (text: Option<String>)
    ensures
        match text {
            Some(t) => valid_utf8(bytes@) && t@ == decode_utf8(bytes@),
            None => !valid_utf8(bytes@),
        },
{
    String::from_utf8(bytes).ok()
}

/// How a character stands inside a JSON string: quotation mark, backslash
/// and the control characters are escaped, everything else stands for itself.
pub open spec fn json_escape(c: char) -> Seq<char> {
    let code = c as u32;
    if c == '"' {
        seq!['\\', '"']
    } else if c == '\\' {
        seq!['\\', '\\']
    } else if code == 0x08 {
        seq!['\\', 'b']
    } else if code == 0x09 {
        seq!['\\', 't']
    } else if code == 0x0a {
        seq!['\\', 'n']
    } else if code == 0x0c {
        seq!['\\', 'f']
    } else if code == 0x0d {
        seq!['\\', 'r']
    } else if code < 0x20 {
        seq!['\\', 'u', '0', '0', hex_char(code as int / 16), hex_char(code as int % 16)]
    } else {
        seq![c]
    }
}

/// A text with each of its characters as it stands inside a JSON string.
pub open spec fn json_escaped(text: Seq<char>) -> Seq<char>
    decreases text.len(),
{
    if text.len() == 0 {
        Seq::empty()
    } else {
        json_escaped(text.drop_last()) + json_escape(text.last())
    }
}

/// A text as a JSON string: escaped, between quotation marks.
pub open spec fn json_string(text: Seq<char>) -> Seq<char> {
    seq!['"'] + json_escaped(text) + seq!['"']
}

/// Writes a text as a JSON string with `serde_json::to_string`.
///
/// Trusted: serde_json puts the text between quotation marks and escapes
/// `"` and `\` with a backslash, the control characters below U+0020 as
/// `\b`, `\t`, `\n`, `\f`, `\r` or `\u00xx` in lower-case hexadecimal, and
/// nothing else. Writing a text cannot fail.
#[verifier::external_body]
fn json_quote(text: &str) -> (quoted: String)
    ensures
        quoted@ == json_string(text@),
{
    serde_json::to_string(text).unwrap_or_default()
}

/// What a claim is, as plain values.
pub struct ClaimView {
    pub principal: Seq<char>,
    pub exp: int,
    pub iat: int,
}

impl View for ICPAuthClaim {
    type V = ClaimView;

    open spec fn view(&self) -> ClaimView {
        ClaimView { principal: self.principal@, exp: self.exp as int, iat: self.iat as int }
    }
}

/// A claim as JSON text: one object with the members `principal`, `exp` and
/// `iat`, in this order and without white space.
pub open spec fn claim_json(claim: ClaimView) -> Seq<char> {
    "{\"principal\":"@ + json_string(claim.principal) + ",\"exp\":"@ + int_text(claim.exp)
        + ",\"iat\":"@ + int_text(claim.iat) + "}"@
}

/// A principal looks like one when it is longer than ten bytes and holds a
/// hyphen.
pub open spec fn looks_like_principal(principal: Seq<char>) -> bool {
    encode_utf8(principal).len() > 10 && principal.contains('-')
}

/// The verdict on a claim at the second `now`: it must not have expired, and
/// its principal must look like one.
pub open spec fn claim_verdict(claim: ClaimView, now: int) -> Result<(), AuthError> {
    if claim.exp < now {
        Err(AuthError::Expired)
    } else if !looks_like_principal(claim.principal) {
        Err(AuthError::InvalidPrincipal)
    } else {
        Ok(())
    }
}

/// The text that a token wraps: its base64 decoded and read as UTF-8.
pub open spec fn payload_of(token: Seq<char>) -> Result<Seq<char>, AuthError> {
    match base64_bytes(token) {
        None => Err(AuthError::InvalidBase64),
        Some(bytes) => if valid_utf8(bytes) {
            Ok(decode_utf8(bytes))
        } else {
            Err(AuthError::InvalidUtf8)
        },
    }
}

/// The text that a token's bytes hold, once the base64 is undone.
pub open spec fn payload_of_bytes(bytes: Option<Seq<u8>>) -> Result<Seq<char>, AuthError> {
    match bytes {
        None => Err(AuthError::InvalidBase64),
        Some(bytes) => if valid_utf8(bytes) {
            Ok(decode_utf8(bytes))
        } else {
            Err(AuthError::InvalidUtf8)
        },
    }
}

/// The token that wraps a claim's JSON text; nothing where that token would
/// be too long for the machine.
pub open spec fn token_of(claim: ClaimView) -> Option<Seq<char>> {
    let bytes = encode_utf8(claim_json(claim));
    if base64_len(bytes.len()) <= usize::MAX {
        Some(base64_text(bytes))
    } else {
        None
    }
}

/// The text of a string's view, where there is a string.
pub open spec fn text_result(outcome: Result<String, AuthError>) -> Result<Seq<char>, AuthError> {
    match outcome {
        Ok(text) => Ok(text@),
        Err(error) => Err(error),
    }
}

/// The text of an optional string.
pub open spec fn text_option(text: Option<String>) -> Option<Seq<char>> {
    match text {
        Some(text) => Some(text@),
        None => None,
    }
}

/// The name space of the functions that read and write bearer tokens.
#[derive(Debug)]
pub struct ICPAuth;

impl ICPAuth {
    /// Unwraps a token: undoes the base64 and reads the bytes as UTF-8.
    pub fn token_payload(token: &str) -> (outcome: Result<String, AuthError>)
        ensures
            text_result(outcome) == payload_of(token@),
    {
        ICPAuth::payload_from_bytes(base64_decode(token))
    }

    /// Reads a token's bytes as text; `None` stands for a token that is not
    /// base64.
    pub fn payload_from_bytes(bytes: Option<Vec<u8>>) -> (outcome: Result<String, AuthError>)
        ensures
            text_result(outcome) == payload_of_bytes(
                match bytes {
                    Some(b) => Some(b@),
                    None => None,
                },
            ),
    {
        match bytes {
            None => Err(AuthError::InvalidBase64),
            Some(bytes) => match utf8_text(bytes) {
                None => Err(AuthError::InvalidUtf8),
                Some(text) => Ok(text),
            },
        }
    }

    /// Judges a claim against the current time: see
    /// [`ICPAuth::verify_claim_at`]. `None` stands for a token whose text is
    /// not a claim.
    pub fn verify_icp_token(claim: Option<ICPAuthClaim>) -> (outcome: Result<
        ICPAuthClaim,
        AuthError,
    >)
        ensures
            match claim {
                None => outcome is Err && outcome->Err_0 == AuthError::InvalidFormat,
                Some(claim) => match outcome {
                    Ok(accepted) => accepted == claim && exists|now: int|
                        #[trigger] claim_verdict(claim@, now) is Ok,
                    Err(error) => exists|now: int|
                        #[trigger] claim_verdict(claim@, now) == Err::<(), AuthError>(error),
                },
            },
    {
        match claim {
            None => Err(AuthError::InvalidFormat),
            Some(claim) => {
                let at = now();
                let ghost seconds = at.secs as int;
                let outcome = ICPAuth::verify_claim_at(claim, at.secs);
                proof {
                    if outcome is Ok {
                        assert(claim_verdict(claim@, seconds) is Ok);
                    } else {
                        assert(claim_verdict(claim@, seconds) == Err::<(), AuthError>(
                            outcome->Err_0,
                        ));
                    }
                }
                outcome
            },
        }
    }

    /// Judges a claim at the second `now`, and hands it back where it holds.
    pub fn verify_claim_at(claim: ICPAuthClaim, now: i64) -> (outcome: Result<
        ICPAuthClaim,
        AuthError,
    >)
        ensures
            match outcome {
                Ok(accepted) => accepted == claim && claim_verdict(claim@, now as int) is Ok,
                Err(error) => claim_verdict(claim@, now as int) == Err::<(), AuthError>(error),
            },
    {
        if claim.exp < now {
            return Err(AuthError::Expired);
        }
        if !ICPAuth::is_valid_principal(claim.principal.as_str()) {
            return Err(AuthError::InvalidPrincipal);
        }
        Ok(claim)
    }

    /// Decides whether a principal looks like one: longer than ten bytes,
    /// with a hyphen somewhere.
    pub fn is_valid_principal(principal: &str) -> (r: bool)
        ensures
            r == looks_like_principal(principal@),
    {
        principal.as_bytes().len() > 10 && contains_char(principal, '-')
    }

    /// The claim that a mock token makes for `principal` when issued at the
    /// second `now`: valid from then, for an hour.
    pub fn mock_claim(principal: &str, now: i64) -> (claim: ICPAuthClaim)
        requires
            now + MOCK_TOKEN_LIFETIME <= i64::MAX,
        ensures
            claim@ == (ClaimView {
                principal: principal@,
                exp: now + MOCK_TOKEN_LIFETIME,
                iat: now as int,
            }),
    {
        ICPAuthClaim {
            principal: String::from_str(principal),
            exp: now + MOCK_TOKEN_LIFETIME,
            iat: now,
        }
    }

    /// Writes a claim as JSON text.
    pub fn claim_to_json(claim: &ICPAuthClaim) -> (json: String)
        ensures
            json@ == claim_json(claim@),
    {
        let mut json = String::from_str("{\"principal\":");
        let principal = json_quote(claim.principal.as_str());
        json.append(principal.as_str());
        json.append(",\"exp\":");
        push_int(&mut json, claim.exp as i128);
        json.append(",\"iat\":");
        push_int(&mut json, claim.iat as i128);
        json.append("}");
        json
    }

    /// Wraps a claim in a token: its JSON text in base64. There is no token
    /// where its length would not fit the machine's `usize`.
    pub fn issue_token(claim: &ICPAuthClaim) -> (token: Option<String>)
        ensures
            text_option(token) == token_of(claim@),
    {
        let json = ICPAuth::claim_to_json(claim);
        let bytes = json.as_str().as_bytes();
        match base64_encoded_len(bytes.len()) {
            None => None,
            Some(_) => Some(base64_encode(bytes)),
        }
    }

    /// A token for `principal`, issued now and valid for an hour: see
    /// [`ICPAuth::create_mock_token_at`].
    pub fn create_mock_token(principal: &str) -> (token: Option<String>)
        ensures
            exists|now: int| 0 <= now && text_option(token) == #[trigger] mock_token(principal@, now),
    {
        let at = now();
        let token = ICPAuth::create_mock_token_at(principal, at.secs);
        assert(text_option(token) == mock_token(principal@, at.secs as int));
        token
    }

    /// A token for `principal`, issued at the second `now` and valid for an
    /// hour. There is none where the hour would end after the last second
    /// that can be written, or where the token would be too long for the
    /// machine.
    pub fn create_mock_token_at(principal: &str, now: i64) -> (token: Option<String>)
        ensures
            text_option(token) == mock_token(principal@, now as int),
    {
        if now > i64::MAX - MOCK_TOKEN_LIFETIME {
            return None;
        }
        let claim = ICPAuth::mock_claim(principal, now);
        ICPAuth::issue_token(&claim)
    }
}

/// The mock token for `principal` issued at the second `now`.
pub open spec fn mock_token(principal: Seq<char>, now: int) -> Option<Seq<char>> {
    if now + MOCK_TOKEN_LIFETIME > i64::MAX {
        None
    } else {
        token_of(ClaimView { principal, exp: now + MOCK_TOKEN_LIFETIME, iat: now })
    }
}

/// The principal that test tokens are issued to.
pub open spec fn test_principal() -> Seq<char> {
    "rdmx6-jaaaa-aaaah-qcaiq-cai"@
}

/// A token for development: a mock token for the test principal.
pub fn create_test_token() -> (token: Option<String>)
    ensures
        exists|now: int| 0 <= now && text_option(token) == #[trigger] mock_token(test_principal(), now),
{
    let token = ICPAuth::create_mock_token("rdmx6-jaaaa-aaaah-qcaiq-cai");
    proof {
        let now = choose|now: int|
            0 <= now && text_option(token) == #[trigger] mock_token(
                "rdmx6-jaaaa-aaaah-qcaiq-cai"@,
                now,
            );
        assert(text_option(token) == mock_token(test_principal(), now));
    }
    token
}

/// What a request's authorization header yields: the text that its token
/// wraps. A missing header and a header that does not start with `Bearer `
/// are turned down, and so is a token that cannot be unwrapped.
pub open spec fn header_verdict(header: Option<Seq<char>>) -> Result<Seq<char>, AuthError> {
    match header {
        None => Err(AuthError::MissingHeader),
        Some(text) => if "Bearer "@.is_prefix_of(text) {
            payload_of(text.skip("Bearer "@.len() as int))
        } else {
            Err(AuthError::InvalidScheme)
        },
    }
}

/// The first step of admission: takes the authorization header apart and
/// unwraps the token it carries. `None` stands for a request without a
/// header that is text. The text that comes back is the claim's JSON, to be
/// read and then judged by [`ICPAuth::verify_icp_token`].
pub fn auth_middleware(header: Option<&str>) -> (outcome: Result<String, AuthError>)
    ensures
        text_result(outcome) == header_verdict(crate::handlers::str_text(header)),
{
    match header {
        None => Err(AuthError::MissingHeader),
        Some(text) => match strip_prefix(text, "Bearer ") {
            None => Err(AuthError::InvalidScheme),
            Some(token) => {
                assert(token@ =~= text@.skip("Bearer "@.len() as int));
                ICPAuth::token_payload(token)
            },
        },
    }
}

/// Why a token was turned down, in words.
pub open spec fn token_fault(error: AuthError) -> Seq<char> {
    match error {
        AuthError::InvalidBase64 => "Invalid base64 token"@,
        AuthError::InvalidUtf8 => "Invalid UTF-8 in token"@,
        AuthError::InvalidFormat => "Invalid token format"@,
        AuthError::Expired => "Token expired"@,
        _ => "Invalid principal format"@,
    }
}

/// The sentence that tells a caller why the request was not let in.
pub open spec fn auth_message(error: AuthError) -> Seq<char> {
    match error {
        AuthError::MissingHeader => "Missing Authorization header"@,
        AuthError::InvalidScheme => "Invalid authorization format. Use 'Bearer <token>'"@,
        _ => "Invalid token: "@ + token_fault(error),
    }
}

/// The answer to a request that was not let in.
pub fn auth_failure(error: &AuthError) -> (answer: (u16, ErrorResponse))
    ensures
        answer.0 == UNAUTHORIZED,
        answer.1.error@ == "unauthorized"@,
        answer.1.message@ == auth_message(*error),
{
    let message = match error {
        AuthError::MissingHeader => String::from_str("Missing Authorization header"),
        AuthError::InvalidScheme => String::from_str(
            "Invalid authorization format. Use 'Bearer <token>'",
        ),
        AuthError::InvalidBase64 => crate::text::join("Invalid token: ", "Invalid base64 token"),
        AuthError::InvalidUtf8 => crate::text::join("Invalid token: ", "Invalid UTF-8 in token"),
        AuthError::InvalidFormat => crate::text::join("Invalid token: ", "Invalid token format"),
        AuthError::Expired => crate::text::join("Invalid token: ", "Token expired"),
        AuthError::InvalidPrincipal => crate::text::join(
            "Invalid token: ",
            "Invalid principal format",
        ),
    };
    (UNAUTHORIZED, ErrorResponse { error: String::from_str("unauthorized"), message })
}

} // verus!
