//! The token service: issues signed session tokens that name a user and
//! expire after a fixed time, and validates tokens that are presented.
//!
//! Tokens are JSON Web Tokens signed with HMAC-SHA256 under a secret that
//! the service holds and never hands out.

use vstd::prelude::*;

verus! {

/// Lifetime of a token in seconds: 24 hours.
pub const TOKEN_DURATION: i64 = 24 * 60 * 60;

/// The clock never shows this many seconds since the Unix epoch, nor more:
/// it counts the days in 32 bits.
pub const CLOCK_LIMIT: i64 = 2_147_483_648 * 86_400;

/// A time that the clock can show.
pub open spec fn on_the_clock(now: i64) -> bool {
    0 <= now < CLOCK_LIMIT
}

/// What a token states: whom it names and when it expires, in seconds since
/// the Unix epoch.
#[derive(Debug, PartialEq, Eq)]
pub struct Claims {
    pub subject: String,
    pub expires_at: i64,
}

/// Claims as contracts see them.
pub struct ClaimsView {
    pub subject: Seq<char>,
    pub expires_at: i64,
}

impl View for Claims {
    type V = ClaimsView;

    open spec fn view(&self) -> ClaimsView {
        ClaimsView { subject: self.subject@, expires_at: self.expires_at }
    }
}

/// Why a token was not issued or not accepted.
#[derive(Clone, Copy, Debug, PartialEq, Eq, Structural)]
pub enum TokenError {
    /// The expiry of the token cannot be represented, or the signing
    /// failed.
    SigningFailed,
    /// The text is not a well-formed signed token with both claims.
    Malformed,
    /// The token has expired: the time is at or past its expiry.
    Expired,
    /// The signature does not match the secret of this service.
    BadSignature,
}

/// The two claims as found in a token whose signature matched: each is
/// present where the payload holds it with the expected type, a string for
/// the subject and an integer that fits 64 bits for the expiry.
#[derive(Debug)]
pub struct Payload {
    pub subject: Option<String>,
    pub expires_at: Option<i64>,
}

/// A payload as contracts see it.
pub struct PayloadView {
    pub subject: Option<Seq<char>>,
    pub expires_at: Option<i64>,
}

impl View for Payload {
    type V = PayloadView;

    open spec fn view(&self) -> PayloadView {
        PayloadView {
            subject: match self.subject {
                Some(s) => Some(s@),
                None => None,
            },
            expires_at: self.expires_at,
        }
    }
}

/// Why a token could not be read.
#[derive(Clone, Copy, Debug, PartialEq, Eq, Structural)]
pub enum DecodeFault {
    /// The token is well formed but signed with another secret.
    SignatureMismatch,
    /// Anything else: not three parts, not base64, not JSON, another
    /// algorithm, a missing expiry.
    Unreadable,
}

/// The error type of the jsonwebtoken crate.
#[verifier::external_type_specification]
#[verifier::external_body]
pub struct ExJwtError(jsonwebtoken::errors::Error);

/// The token that `jsonwebtoken::encode` returns for a default header
/// (HS256), the claims `sub` and `exp`, and an HMAC secret.
pub uninterp spec fn signed_token(subject: Seq<char>, expires_at: i64, secret: Seq<char>) -> Seq<char>;

/// What `jsonwebtoken::decode` returns for a token and an HMAC secret when
/// it checks structure, algorithm (HS256) and signature but not the time.
pub uninterp spec fn decoded_token(token: Seq<char>, secret: Seq<char>) -> Result<
    PayloadView,
    DecodeFault,
>;

/// The decoding result of a token that was read in full: signature
/// matched, both claims found.
pub open spec fn read_as(subject: Seq<char>, expires_at: i64) -> Result<PayloadView, DecodeFault> {
    Ok(PayloadView { subject: Some(subject), expires_at: Some(expires_at) })
}

/// The decoding result of a token that was signed for a subject and an
/// expiry, under the secret it was signed with: both claims where the
/// expiry is not negative. A negative expiry does not read back as the
/// unsigned number that decoding asks for, and counts as missing.
pub open spec fn read_back(subject: Seq<char>, expires_at: i64) -> Result<PayloadView, DecodeFault> {
    if expires_at >= 0 {
        read_as(subject, expires_at)
    } else {
        Err(DecodeFault::Unreadable)
    }
}

/// The view of a decoding result.
pub open spec fn decoding_view(r: Result<Payload, DecodeFault>) -> Result<PayloadView, DecodeFault> {
    match r {
        Ok(payload) => Ok(payload@),
        Err(fault) => Err(fault),
    }
}

/// The view of a validation result.
pub open spec fn claims_view(r: Result<Claims, TokenError>) -> Result<ClaimsView, TokenError> {
    match r {
        Ok(claims) => Ok(claims@),
        Err(e) => Err(e),
    }
}

/// The view of an issuing result.
pub open spec fn token_view(r: Result<String, TokenError>) -> Result<Seq<char>, TokenError> {
    match r {
        Ok(token) => Ok(token@),
        Err(e) => Err(e),
    }
}

/// Calls `jsonwebtoken::encode` on a default header, a JSON object with the
/// claims `sub` and `exp` in this order, and the secret as HMAC key. The
/// call computes from its arguments alone. With an HMAC key and the HS256
/// header it has nothing to fail on: the key fits the algorithm, header and
/// claims serialize, and HMAC signs under any key. The token is three
/// base64url parts joined by dots, so it is not empty. Decoding it under
/// the same secret matches the signature and finds the claims as they were
/// given, but for a negative expiry, which decoding counts as missing.
#[verifier::external_body]
fn encode_token(subject: &str, expires_at: i64, secret: &str) -> (r: Result<String, jsonwebtoken::errors::Error>)
    ensures
        r is Ok,
        r matches Ok(token) ==> token@ == signed_token(subject@, expires_at, secret@),
        r matches Ok(token) ==> token@.len() > 0,
        r matches Ok(token) ==> decoded_token(token@, secret@) == read_back(subject@, expires_at),
{
    let mut claims = serde_json::Map::new();
    claims.insert(String::from("sub"), serde_json::Value::from(subject));
    claims.insert(String::from("exp"), serde_json::Value::from(expires_at));
    let key = jsonwebtoken::EncodingKey::from_secret(secret.as_bytes());
    jsonwebtoken::encode(&jsonwebtoken::Header::default(), &claims, &key)
}

/// Calls `jsonwebtoken::decode` with the default validation but for the
/// check of the expiry against the clock, which is switched off, so that
/// the call computes from its arguments alone. Of the claims it picks `sub`
/// and `exp`; of the error it tells a signature that does not match from
/// everything else. A text that holds a space is never accepted: header and
/// payload must be base64url text, and the signature is compared with such
/// a text.
#[verifier::external_body]
fn decode_token(token: &str, secret: &str) -> (r: Result<Payload, DecodeFault>)
    ensures
        decoding_view(r) == decoded_token(token@, secret@),
        token@.contains(' ') ==> r is Err,
{
    let mut validation = jsonwebtoken::Validation::default();
    validation.validate_exp = false;
    let key = jsonwebtoken::DecodingKey::from_secret(secret.as_bytes());
    match jsonwebtoken::decode::<serde_json::Value>(token, &key, &validation) {
        Ok(data) => Ok(Payload {
            subject: data.claims["sub"].as_str().map(String::from),
            expires_at: data.claims["exp"].as_i64(),
        }),
        Err(e) => match e.kind() {
            jsonwebtoken::errors::ErrorKind::InvalidSignature => Err(DecodeFault::SignatureMismatch),
            _ => Err(DecodeFault::Unreadable),
        },
    }
}

/// Reads the clock through `chrono::Utc::now` and gives the seconds since
/// the Unix epoch. chrono measures the time that has passed since the
/// epoch, so the number is not negative, and it refuses a time whose day
/// does not fit 32 bits, so the number is below `CLOCK_LIMIT`. On a clock
/// outside of that range the call stops the program.
#[verifier::external_body]
pub(crate) fn unix_now() -> (r: i64)
    ensures
        on_the_clock(r),
{
    chrono::Utc::now().timestamp()
}

/// The outcome of validating at time `now` a token that decoded as given.
pub open spec fn validation_outcome(decoded: Result<PayloadView, DecodeFault>, now: i64) -> Result<
    ClaimsView,
    TokenError,
> {
    match decoded {
        Err(DecodeFault::SignatureMismatch) => Err(TokenError::BadSignature),
        Err(DecodeFault::Unreadable) => Err(TokenError::Malformed),
        Ok(payload) => match (payload.subject, payload.expires_at) {
            (Some(subject), Some(expires_at)) => if now >= expires_at {
                Err(TokenError::Expired)
            } else {
                Ok(ClaimsView { subject, expires_at })
            },
            _ => Err(TokenError::Malformed),
        },
    }
}

/// The outcome of issuing at time `now` a token for `username` under
/// `secret`.
pub open spec fn issue_outcome(username: Seq<char>, now: i64, secret: Seq<char>) -> Result<
    Seq<char>,
    TokenError,
> {
    if now + TOKEN_DURATION > i64::MAX {
        Err(TokenError::SigningFailed)
    } else {
        Ok(signed_token(username, (now + TOKEN_DURATION) as i64, secret))
    }
}

/// What issuing at time `now` guarantees of its result: it is the outcome
/// that `issue_outcome` gives, and a token that comes back is not empty and
/// decodes under `secret` as `read_back` says of its claims.
pub open spec fn issued_at(
    r: Result<Seq<char>, TokenError>,
    username: Seq<char>,
    now: i64,
    secret: Seq<char>,
) -> bool {
    &&& r == issue_outcome(username, now, secret)
    &&& r matches Ok(token) ==> token.len() > 0
    &&& r matches Ok(token) ==> decoded_token(token, secret) == read_back(
        username,
        (now + TOKEN_DURATION) as i64,
    )
}

/// Decides on a token from what decoding found and the time: a signature of
/// another secret is `BadSignature`; a token that cannot be read, or lacks
/// one of the two claims, is `Malformed`; one whose expiry is not after
/// `now` is `Expired`; any other is accepted with its claims.
pub fn judge(decoded: Result<Payload, DecodeFault>, now: i64) -> (r: Result<Claims, TokenError>)
    ensures
        claims_view(r) == validation_outcome(decoding_view(decoded), now),
{
    match decoded {
        Err(DecodeFault::SignatureMismatch) => Err(TokenError::BadSignature),
        Err(DecodeFault::Unreadable) => Err(TokenError::Malformed),
        Ok(payload) => match (payload.subject, payload.expires_at) {
            (Some(subject), Some(expires_at)) => {
                if now >= expires_at {
                    Err(TokenError::Expired)
                } else {
                    Ok(Claims { subject, expires_at })
                }
            },
            _ => Err(TokenError::Malformed),
        },
    }
}

/// Issues and validates tokens under one secret.
pub struct TokenService {
    secret: String,
}

impl TokenService {
    /// The secret, for contracts only: no function returns it.
    pub closed spec fn key(&self) -> Seq<char> {
        self.secret@
    }

    /// A service that signs and checks with `secret`.
    pub fn new(secret: String) -> (r: Self)
        ensures
            r.key() == secret@,
    {
        TokenService { secret }
    }

    /// Issues a token for `username` that expires `TOKEN_DURATION` seconds
    /// after `now`. Fails if and only if that moment cannot be represented.
    pub fn issue_at(&self, username: &str, now: i64) -> (r: Result<String, TokenError>)
        ensures
            issued_at(token_view(r), username@, now, self.key()),
    {
        match now.checked_add(TOKEN_DURATION) {
            None => Err(TokenError::SigningFailed),
            Some(expires_at) => match encode_token(username, expires_at, self.secret.as_str()) {
                Ok(token) => Ok(token),
                Err(_) => Err(TokenError::SigningFailed),
            },
        }
    }

    /// Issues a token for `username` at the time the clock shows. This
    /// does not fail.
    pub fn issue(&self, username: &str) -> (r: Result<String, TokenError>)
        ensures
            r is Ok,
            exists|now: i64|
                on_the_clock(now) && #[trigger] issued_at(token_view(r), username@, now, self.key()),
    {
        let now = unix_now();
        self.issue_at(username, now)
    }

    /// Validates `token` at time `now`: signature and structure against the
    /// secret of this service, then the expiry against `now`. A text that
    /// holds a space is no token.
    pub fn validate_at(&self, token: &str, now: i64) -> (r: Result<Claims, TokenError>)
        ensures
            claims_view(r) == validation_outcome(decoded_token(token@, self.key()), now),
            token@.contains(' ') ==> r is Err,
    {
        judge(decode_token(token, self.secret.as_str()), now)
    }

    /// Validates `token` at the time the clock shows.
    pub fn validate(&self, token: &str) -> (r: Result<Claims, TokenError>)
        ensures
            exists|now: i64|
                on_the_clock(now) && claims_view(r) == #[trigger] validation_outcome(
                    decoded_token(token@, self.key()),
                    now,
                ),
            token@.contains(' ') ==> r is Err,
    {
        let now = unix_now();
        self.validate_at(token, now)
    }
}

/// A token whose expiry is not after `now` is not accepted, though its
/// signature matched: validation fails, and it fails as `Expired` where the
/// token names a subject.
pub proof fn lemma_expired_is_rejected(subject: Option<Seq<char>>, expires_at: i64, now: i64)
    requires
        expires_at <= now,
    ensures
        validation_outcome(Ok(PayloadView { subject, expires_at: Some(expires_at) }), now) is Err,
        subject is Some ==> validation_outcome(
            Ok(PayloadView { subject, expires_at: Some(expires_at) }),
            now,
        ) == Err::<ClaimsView, TokenError>(TokenError::Expired),
{
}

/// Validation never accepts a token that decoding did not read.
pub proof fn lemma_unread_is_rejected(fault: DecodeFault, now: i64)
    ensures
        validation_outcome(Err(fault), now) is Err,
{
}

/// A token that was issued at `now` is accepted, with the claims it was
/// issued for, at every time before its expiry, where that expiry is not
/// negative; and it is accepted at no time from its expiry on.
pub proof fn lemma_issued_token_lives_a_day(
    token: Seq<char>,
    username: Seq<char>,
    now: i64,
    secret: Seq<char>,
    at: i64,
)
    requires
        issued_at(Ok(token), username, now, secret),
    ensures
        0 <= now + TOKEN_DURATION && at < now + TOKEN_DURATION ==> validation_outcome(
            decoded_token(token, secret),
            at,
        ) == Ok::<ClaimsView, TokenError>(
            ClaimsView { subject: username, expires_at: (now + TOKEN_DURATION) as i64 },
        ),
        at >= now + TOKEN_DURATION ==> validation_outcome(decoded_token(token, secret), at) is Err,
{
}

} // verus!
