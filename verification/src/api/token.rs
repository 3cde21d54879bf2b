//! Stateless session tokens: signed claims that name a subject and expire.
use vstd::prelude::*;
use vstd::string::*;

verus! {

/// The claims that a session token carries.
#[derive(Debug, Clone)]
pub struct TokenClaims {
    /// The subject: the identity's identifier, as text.
    pub sub: String,
    /// Expiry, in seconds since the epoch.
    pub exp: usize,
    /// Time of issue, in seconds since the epoch.
    pub iat: usize,
}

/// Why a token was not issued or not accepted.
#[derive(Debug, Clone, Copy, PartialEq, Eq, Structural)]
pub enum TokenError {
    /// The claims could not be encoded and signed.
    Signing,
    /// The signature is good and the expiry has passed.
    Expired,
    /// The signature does not belong to the secret.
    BadSignature,
    /// The text is no token, or its claims are not those of a session.
    Malformed,
}

/// Why the signed text could not be opened.
#[derive(Debug, Clone, Copy, PartialEq, Eq, Structural)]
pub enum DecodeFailure {
    BadSignature,
    Malformed,
}

/// The claims found in a token whose signature was good; a claim that is
/// absent or of the wrong type is `None`.
#[derive(Debug, Clone)]
pub struct RawClaims {
    pub sub: Option<String>,
    pub exp: Option<u64>,
    pub iat: Option<u64>,
}

/// The subject, expiry and time of issue found in a token.
pub type ClaimFields = (Option<Seq<char>>, Option<u64>, Option<u64>);

/// The token that signing the three claims with `secret` gives.
pub uninterp spec fn signed_token(sub: Seq<char>, exp: u64, iat: u64, secret: Seq<char>) -> Seq<
    char,
>;

/// What opening `token` with `secret` gives, the expiry left unexamined.
pub uninterp spec fn token_decoded(token: Seq<char>, secret: Seq<char>) -> Result<
    ClaimFields,
    DecodeFailure,
>;

pub open spec fn raw_view(raw: Result<RawClaims, DecodeFailure>) -> Result<
    ClaimFields,
    DecodeFailure,
> {
    match raw {
        Ok(claims) => Ok(
            (
                match claims.sub {
                    Some(sub) => Some(sub@),
                    None => None,
                },
                claims.exp,
                claims.iat,
            ),
        ),
        Err(e) => Err(e),
    }
}

/// A token that was signed over some claims with some key is opened by a
/// secret exactly when signing the same claims with that secret gives the
/// same token, and then yields those claims; otherwise its signature is bad.
pub open spec fn opens_signed_tokens(
    token: Seq<char>,
    secret: Seq<char>,
    decoded: Result<ClaimFields, DecodeFailure>,
) -> bool {
    forall|sub: Seq<char>, exp: u64, iat: u64, key: Seq<char>|
        #[trigger] signed_token(sub, exp, iat, key) == token ==> decoded == if signed_token(
            sub,
            exp,
            iat,
            secret,
        ) == token {
            Ok::<ClaimFields, DecodeFailure>((Some(sub), Some(exp), Some(iat)))
        } else {
            Err::<ClaimFields, DecodeFailure>(DecodeFailure::BadSignature)
        }
}

/// Calls `jsonwebtoken::encode` with the default header (HS256), the claims
/// `sub`, `exp` and `iat` as a JSON object, and `secret` as the HMAC key.
/// The token depends on these four values alone, and one always comes back:
/// the call fails only for a key of another family than the header's or for
/// claims that do not serialize, and an HMAC key under HS256 with a JSON
/// object of one string and two numbers is neither.
#[verifier::external_body]
fn sign_claims(sub: &str, exp: u64, iat: u64, secret: &str) -> (token: Option<String>)
    ensures
        token is Some,
        token->Some_0@ == signed_token(sub@, exp, iat, secret@),
{
    let mut claims = serde_json::Map::new();
    claims.insert("sub".to_string(), serde_json::Value::from(sub));
    claims.insert("exp".to_string(), serde_json::Value::from(exp));
    claims.insert("iat".to_string(), serde_json::Value::from(iat));
    let key = jsonwebtoken::EncodingKey::from_secret(secret.as_bytes());
    jsonwebtoken::encode(&jsonwebtoken::Header::default(), &claims, &key).ok()
}

/// Calls `jsonwebtoken::decode` with `secret` as the HMAC key and the default
/// validation (HS256) with the expiry check switched off, so that the result
/// depends on the two texts alone. A failed signature comparison is told
/// apart from every other failure. Of a token that `jsonwebtoken::encode`
/// made, the call recomputes the signature under `secret` and compares.
#[verifier::external_body]
fn open_token(token: &str, secret: &str) -> (raw: Result<RawClaims, DecodeFailure>)
    ensures
        raw_view(raw) == token_decoded(token@, secret@),
        opens_signed_tokens(token@, secret@, raw_view(raw)),
{
    let key = jsonwebtoken::DecodingKey::from_secret(secret.as_bytes());
    let mut rules = jsonwebtoken::Validation::default();
    rules.validate_exp = false;
    match jsonwebtoken::decode::<serde_json::Value>(token, &key, &rules) {
        Ok(data) => Ok(RawClaims {
            sub: data.claims.get("sub").and_then(|v| v.as_str()).map(|s| s.to_string()),
            exp: data.claims.get("exp").and_then(|v| v.as_u64()),
            iat: data.claims.get("iat").and_then(|v| v.as_u64()),
        }),
        Err(e) => match e.kind() {
            jsonwebtoken::errors::ErrorKind::InvalidSignature => Err(DecodeFailure::BadSignature),
            _ => Err(DecodeFailure::Malformed),
        },
    }
}

/// Calls `chrono::Utc::now` and takes its `timestamp`: the seconds since the
/// epoch on this machine's clock. `now` measures the time as a duration
/// since the epoch and makes a calendar date of it, so what comes back lies
/// between the epoch and the last date. Nothing else is claimed of it.
#[verifier::external_body]
pub(crate) fn unix_now() -> (now: i64)
    ensures
        is_clock_reading(now as int),
{
    chrono::Utc::now().timestamp()
}

/// Subject, expiry and time of issue of accepted claims, or the error.
pub type Validation = Result<(Seq<char>, u64, u64), TokenError>;

/// The longest lifetime of a token, either way, in seconds: the longest
/// span that can be counted in milliseconds.
pub const MAX_LIFETIME: i64 = 9_223_372_036_854_775;

/// The last second that a calendar date can name: the end of the year
/// 262142.
pub const MAX_TIMESTAMP: i64 = 8_210_266_876_799;

/// Whether `at` is a time that the clock can read: between the epoch and
/// the last date.
pub open spec fn is_clock_reading(at: int) -> bool {
    0 <= at <= MAX_TIMESTAMP
}

/// Whether `at` is a time that a token can carry.
pub open spec fn is_token_time(at: int) -> bool {
    0 <= at <= MAX_TIMESTAMP && at <= usize::MAX
}

/// Time of issue and expiry of a token made at `now` to last `duration`
/// seconds. There are none where the lifetime is longer than
/// `MAX_LIFETIME` either way, or where the time of issue or the expiry lies
/// before the epoch or after `MAX_TIMESTAMP`.
pub open spec fn claim_times(now: int, duration: int) -> Option<(u64, u64)> {
    if -MAX_LIFETIME <= duration <= MAX_LIFETIME && is_token_time(now) && is_token_time(
        now + duration,
    ) {
        Some((now as u64, (now + duration) as u64))
    } else {
        None
    }
}

/// The result of issuing a token for `sub` at `now`: the signed claims
/// wherever the two times exist, and `Signing` where they do not.
pub open spec fn creation_of(sub: Seq<char>, secret: Seq<char>, duration: int, now: int) -> Result<
    Seq<char>,
    TokenError,
> {
    match claim_times(now, duration) {
        Some((iat, exp)) => Ok(signed_token(sub, exp, iat, secret)),
        None => Err(TokenError::Signing),
    }
}

/// The verdict on an opened token at `now`: the signature decides first,
/// then the shape of the claims, then the expiry.
pub open spec fn validation_of(decoded: Result<ClaimFields, DecodeFailure>, now: int) -> Validation {
    match decoded {
        Err(DecodeFailure::BadSignature) => Err(TokenError::BadSignature),
        Err(DecodeFailure::Malformed) => Err(TokenError::Malformed),
        Ok((Some(sub), Some(exp), Some(iat))) => if exp > usize::MAX || iat > usize::MAX {
            Err(TokenError::Malformed)
        } else if exp < now {
            Err(TokenError::Expired)
        } else {
            Ok((sub, exp, iat))
        },
        Ok(_) => Err(TokenError::Malformed),
    }
}

pub open spec fn claims_view(outcome: Result<TokenClaims, TokenError>) -> Validation {
    match outcome {
        Ok(claims) => Ok((claims.sub@, claims.exp as u64, claims.iat as u64)),
        Err(e) => Err(e),
    }
}

pub open spec fn text_view(outcome: Result<String, TokenError>) -> Result<Seq<char>, TokenError> {
    match outcome {
        Ok(token) => Ok(token@),
        Err(e) => Err(e),
    }
}

/// A token issued under `secret` is accepted with its subject until its
/// expiry and is expired afterwards.
pub open spec fn accepts_own_tokens(
    token: Seq<char>,
    secret: Seq<char>,
    now: int,
    verdict: Validation,
) -> bool {
    forall|sub: Seq<char>, duration: int, created: int|
        #[trigger] creation_of(sub, secret, duration, created) == Ok::<Seq<char>, TokenError>(token)
            ==> verdict == if created + duration < now {
            Err::<(Seq<char>, u64, u64), TokenError>(TokenError::Expired)
        } else {
            Ok::<(Seq<char>, u64, u64), TokenError>(
                (sub, (created + duration) as u64, created as u64),
            )
        }
}

/// A token issued under a key is refused for its signature by every secret
/// under which the same claims sign differently.
pub open spec fn refuses_foreign_tokens(token: Seq<char>, secret: Seq<char>, verdict: Validation) -> bool {
    forall|sub: Seq<char>, duration: int, created: int, key: Seq<char>|
        #[trigger] creation_of(sub, key, duration, created) == Ok::<Seq<char>, TokenError>(token)
            && creation_of(sub, secret, duration, created) != Ok::<Seq<char>, TokenError>(token)
            ==> verdict == Err::<(Seq<char>, u64, u64), TokenError>(TokenError::BadSignature)
}

impl TokenClaims {
    /// Decides on a token that was opened: `raw` is what opening gave, `now`
    /// the time of the check in seconds since the epoch.
    pub fn check(raw: Result<RawClaims, DecodeFailure>, now: i64) -> (outcome: Result<
        TokenClaims,
        TokenError,
    >)
        ensures
            claims_view(outcome) == validation_of(raw_view(raw), now as int),
    {
        match raw {
            Err(DecodeFailure::BadSignature) => Err(TokenError::BadSignature),
            Err(DecodeFailure::Malformed) => Err(TokenError::Malformed),
            Ok(claims) => match (claims.sub, claims.exp, claims.iat) {
                (Some(sub), Some(exp), Some(iat)) => {
                    if exp > usize::MAX as u64 || iat > usize::MAX as u64 {
                        Err(TokenError::Malformed)
                    } else if (exp as i128) < (now as i128) {
                        Err(TokenError::Expired)
                    } else {
                        Ok(TokenClaims { sub, exp: exp as usize, iat: iat as usize })
                    }
                },
                _ => Err(TokenError::Malformed),
            },
        }
    }

    /// Issues a token for `sub` at the time `now`, to expire `duration`
    /// seconds later. A token is owed wherever the lifetime is at most
    /// `MAX_LIFETIME` either way and both times lie between the epoch and
    /// `MAX_TIMESTAMP`; everywhere else the answer is `Signing`.
    pub fn create_at(sub: &str, secret: &str, duration: i64, now: i64) -> (outcome: Result<
        String,
        TokenError,
    >)
        ensures
            text_view(outcome) == creation_of(sub@, secret@, duration as int, now as int),
            outcome is Ok <==> claim_times(now as int, duration as int) is Some,
    {
        if duration < -MAX_LIFETIME || duration > MAX_LIFETIME {
            return Err(TokenError::Signing);
        }
        let expiry: i128 = now as i128 + duration as i128;
        if now < 0 || now > MAX_TIMESTAMP || now as i128 > usize::MAX as i128 || expiry < 0
            || expiry > MAX_TIMESTAMP as i128 || expiry > usize::MAX as i128 {
            return Err(TokenError::Signing);
        }
        match sign_claims(sub, expiry as u64, now as u64, secret) {
            Some(token) => Ok(token),
            None => Err(TokenError::Signing),
        }
    }

    /// Validates `token` against `secret` at the time `now`. The signature
    /// is examined before anything that the token claims.
    pub fn validate_at(token: &str, secret: &str, now: i64) -> (outcome: Result<
        TokenClaims,
        TokenError,
    >)
        ensures
            claims_view(outcome) == validation_of(token_decoded(token@, secret@), now as int),
            accepts_own_tokens(token@, secret@, now as int, claims_view(outcome)),
            refuses_foreign_tokens(token@, secret@, claims_view(outcome)),
    {
        let raw = open_token(token, secret);
        let outcome = TokenClaims::check(raw, now);
        proof {
            let verdict = claims_view(outcome);
            assert forall|sub: Seq<char>, duration: int, created: int|
                #[trigger] creation_of(sub, secret@, duration, created) == Ok::<
                    Seq<char>,
                    TokenError,
                >(token@) implies verdict == if created + duration < now {
                Err::<(Seq<char>, u64, u64), TokenError>(TokenError::Expired)
            } else {
                Ok::<(Seq<char>, u64, u64), TokenError>(
                    (sub, (created + duration) as u64, created as u64),
                )
            } by {
                let times = claim_times(created, duration);
                assert(times is Some);
                let (iat, exp) = times.unwrap();
                assert(signed_token(sub, exp, iat, secret@) == token@);
            }
            assert forall|sub: Seq<char>, duration: int, created: int, key: Seq<char>|
                #[trigger] creation_of(sub, key, duration, created) == Ok::<Seq<char>, TokenError>(
                    token@,
                ) && creation_of(sub, secret@, duration, created) != Ok::<Seq<char>, TokenError>(
                    token@,
                ) implies verdict == Err::<(Seq<char>, u64, u64), TokenError>(
                TokenError::BadSignature,
            ) by {
                let times = claim_times(created, duration);
                assert(times is Some);
                let (iat, exp) = times.unwrap();
                assert(signed_token(sub, exp, iat, key) == token@);
            }
        }
        outcome
    }

    /// Issues a token for `sub` now, to expire `duration` seconds from now.
    /// The clock reads a time since the epoch, so a token is owed wherever
    /// `create_at` owes one at that reading.
    pub fn create(sub: String, secret: String, duration: i64) -> (outcome: Result<
        String,
        TokenError,
    >)
        ensures
            exists|now: i64|
                is_clock_reading(now as int) && text_view(outcome) == creation_of(
                    sub@,
                    secret@,
                    duration as int,
                    now as int,
                ),
    {
        let now = unix_now();
        TokenClaims::create_at(sub.as_str(), secret.as_str(), duration, now)
    }

    /// Validates `token` against `secret` at the present time.
    pub fn validate(token: String, secret: String) -> (outcome: Result<TokenClaims, TokenError>)
        ensures
            exists|now: i64|
                {
                    &&& is_clock_reading(now as int)
                    &&& claims_view(outcome) == validation_of(
                        token_decoded(token@, secret@),
                        now as int,
                    )
                    &&& accepts_own_tokens(token@, secret@, now as int, claims_view(outcome))
                },
            refuses_foreign_tokens(token@, secret@, claims_view(outcome)),
    {
        let now = unix_now();
        TokenClaims::validate_at(token.as_str(), secret.as_str(), now)
    }
}

} // verus!
