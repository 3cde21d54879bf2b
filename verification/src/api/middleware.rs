//! Session middleware: finds the credential in a request, validates it and
//! resolves the identity, under an enforcing or an optional policy.
use vstd::prelude::*;
use vstd::string::*;
use crate::api::errors::{ApiError, AuthError};
use crate::api::token::{
    claims_view, creation_of, is_clock_reading, token_decoded, unix_now, validation_of,
    TokenClaims, TokenError,
};
use crate::db::errors::DatabaseError;
use crate::db::user::{parse_uuid, uuid_parsed, User, UserQuery};

verus! {

/// What a request carries that may hold a session token: the value of the
/// cookie named `token` and the value of the `Authorization` header.
#[derive(Debug, Clone)]
pub struct Credentials {
    pub cookie: Option<String>,
    pub authorization: Option<String>,
}

/// What the middleware does with a request that has no valid session.
#[derive(Debug, Clone, Copy, PartialEq, Eq, Structural)]
pub enum Policy {
    /// Reject the request.
    Enforcing,
    /// Let it pass, marked as anonymous.
    Optional,
}

/// What is attached to a request that passes.
#[derive(Debug, Clone)]
pub enum Context {
    /// The resolved identity (enforcing policy).
    Identity(User),
    /// The identifier of the resolved identity, or none (optional policy).
    Identifier(Option<u128>),
}

/// How the middleware ends.
#[derive(Debug, Clone)]
pub enum Verdict {
    /// The downstream handler runs with the context attached.
    Proceed(Context),
    /// The request is answered with the error.
    Reject(ApiError),
}

/// What the middleware needs next.
#[derive(Debug, Clone)]
pub enum Step {
    /// The identity that the query selects has to be looked up.
    Lookup(UserQuery),
    /// Nothing: the verdict is reached.
    Finish(Verdict),
}

/// The scheme prefix of a bearer header.
pub open spec fn bearer_prefix() -> Seq<char> {
    seq!['B', 'e', 'a', 'r', 'e', 'r', ' ']
}

/// The token of an `Authorization` header value: what follows the exact
/// prefix `Bearer `, if the value starts with it.
pub open spec fn bearer_token(header: Seq<char>) -> Option<Seq<char>> {
    if header.len() >= 7 && header.subrange(0, 7) == bearer_prefix() {
        Some(header.subrange(7, header.len() as int))
    } else {
        None
    }
}

pub open spec fn text_of(text: Option<String>) -> Option<Seq<char>> {
    match text {
        Some(t) => Some(t@),
        None => None,
    }
}

/// The candidate token of a request: the cookie wins; without a cookie the
/// bearer header is read; otherwise there is none.
pub open spec fn extracted(cookie: Option<Seq<char>>, authorization: Option<Seq<char>>) -> Option<
    Seq<char>,
> {
    match cookie {
        Some(token) => Some(token),
        None => match authorization {
            Some(header) => bearer_token(header),
            None => None,
        },
    }
}

/// Reads the token out of an `Authorization` header value.
pub fn strip_bearer(header: &str) -> (token: Option<String>)
    ensures
        text_of(token) == bearer_token(header@),
{
    let prefix = "Bearer ";
    proof {
        reveal_strlit("Bearer ");
        assert(prefix@ =~= bearer_prefix());
    }
    let n = header.unicode_len();
    if n < 7 {
        return None;
    }
    let mut i: usize = 0;
    while i < 7
        invariant
            i <= 7,
            n == header@.len(),
            n >= 7,
            prefix@ == bearer_prefix(),
            forall|j: int| 0 <= j < i ==> header@[j] == bearer_prefix()[j],
        decreases 7 - i,
    {
        if header.get_char(i) != prefix.get_char(i) {
            assert(header@.subrange(0, 7)[i as int] != bearer_prefix()[i as int]);
            return None;
        }
        i += 1;
    }
    assert(header@.subrange(0, 7) =~= bearer_prefix());
    Some(String::from_str(header.substring_char(7, n)))
}

/// Finds the candidate token of a request.
pub fn extract(credentials: &Credentials) -> (token: Option<String>)
    ensures
        text_of(token) == extracted(
            text_of(credentials.cookie),
            text_of(credentials.authorization),
        ),
{
    match &credentials.cookie {
        Some(token) => Some(token.clone()),
        None => match &credentials.authorization {
            Some(header) => strip_bearer(header.as_str()),
            None => None,
        },
    }
}

/// The identifier that a token names at `now` under `secret`: the token must
/// validate and its subject must be the text of a UUID.
pub open spec fn subject_of(token: Seq<char>, secret: Seq<char>, now: int) -> Option<u128> {
    match validation_of(token_decoded(token, secret), now) {
        Ok((sub, _, _)) => uuid_parsed(sub),
        Err(_) => None,
    }
}

/// How a session failure ends under each policy.
pub open spec fn failure(policy: Policy, error: AuthError) -> Verdict {
    match policy {
        Policy::Enforcing => Verdict::Reject(ApiError::AuthError(error)),
        Policy::Optional => Verdict::Proceed(Context::Identifier(None)),
    }
}

/// The first step on a request: without a token the session is missing,
/// with a token that names no identifier it is invalid, and otherwise the
/// identity is to be looked up by that identifier.
pub open spec fn first_step(
    policy: Policy,
    cookie: Option<Seq<char>>,
    authorization: Option<Seq<char>>,
    secret: Seq<char>,
    now: int,
) -> Step {
    match extracted(cookie, authorization) {
        None => Step::Finish(failure(policy, AuthError::MissingToken)),
        Some(token) => match subject_of(token, secret, now) {
            None => Step::Finish(failure(policy, AuthError::InvalidToken)),
            Some(id) => Step::Lookup(UserQuery::ById(id)),
        },
    }
}

/// What the first step is on a token that was issued under `secret`: after
/// its expiry, or with a subject that is no identifier, the session is
/// invalid; until then the identity that the subject names is looked up.
pub open spec fn step_on_own_token(
    policy: Policy,
    sub: Seq<char>,
    expiry: int,
    now: int,
) -> Step {
    if expiry < now {
        Step::Finish(failure(policy, AuthError::InvalidToken))
    } else {
        match uuid_parsed(sub) {
            Some(id) => Step::Lookup(UserQuery::ById(id)),
            None => Step::Finish(failure(policy, AuthError::InvalidToken)),
        }
    }
}

/// Whether `step` treats the candidate token as the pipeline treats every
/// token that was issued under `secret`.
pub open spec fn handles_own_tokens(
    policy: Policy,
    token: Option<Seq<char>>,
    secret: Seq<char>,
    now: int,
    step: Step,
) -> bool {
    forall|sub: Seq<char>, duration: int, created: int|
        token == Some(
            #[trigger] creation_of(sub, secret, duration, created).unwrap(),
        ) && creation_of(sub, secret, duration, created) is Ok ==> step == step_on_own_token(
            policy,
            sub,
            created + duration,
            now,
        )
}

/// The verdict once the lookup has answered.
pub open spec fn verdict_of(policy: Policy, found: Result<Option<User>, DatabaseError>) -> Verdict {
    match found {
        Err(e) => match policy {
            Policy::Enforcing => Verdict::Reject(ApiError::Database(e)),
            Policy::Optional => Verdict::Proceed(Context::Identifier(None)),
        },
        Ok(None) => failure(policy, AuthError::MissingUser),
        Ok(Some(user)) => match policy {
            Policy::Enforcing => Verdict::Proceed(Context::Identity(user)),
            Policy::Optional => Verdict::Proceed(Context::Identifier(Some(user.id))),
        },
    }
}

fn fail(policy: Policy, error: AuthError) -> (verdict: Verdict)
    ensures
        verdict == failure(policy, error),
{
    match policy {
        Policy::Enforcing => Verdict::Reject(ApiError::AuthError(error)),
        Policy::Optional => Verdict::Proceed(Context::Identifier(None)),
    }
}

/// Runs the pipeline on a request up to the lookup: extract, validate at
/// `now`, read the subject.
pub fn begin_at(policy: Policy, credentials: &Credentials, secret: &str, now: i64) -> (step: Step)
    ensures
        step == first_step(
            policy,
            text_of(credentials.cookie),
            text_of(credentials.authorization),
            secret@,
            now as int,
        ),
        handles_own_tokens(
            policy,
            extracted(text_of(credentials.cookie), text_of(credentials.authorization)),
            secret@,
            now as int,
            step,
        ),
{
    let token = match extract(credentials) {
        Some(token) => token,
        None => {
            return Step::Finish(fail(policy, AuthError::MissingToken));
        },
    };
    let validated = TokenClaims::validate_at(token.as_str(), secret, now);
    let step = match validated {
        Ok(claims) => match parse_uuid(claims.sub.as_str()) {
            Some(id) => Step::Lookup(User::by_id(id)),
            None => Step::Finish(fail(policy, AuthError::InvalidToken)),
        },
        Err(_) => Step::Finish(fail(policy, AuthError::InvalidToken)),
    };
    proof {
        assert forall|sub: Seq<char>, duration: int, created: int|
            Some(token@) == Some(
                #[trigger] creation_of(sub, secret@, duration, created).unwrap(),
            ) && creation_of(sub, secret@, duration, created) is Ok implies step
            == step_on_own_token(policy, sub, created + duration, now as int) by {
            assert(creation_of(sub, secret@, duration, created) == Ok::<Seq<char>, TokenError>(
                token@,
            ));
        }
    }
    step
}

/// Whether `step` is the first step on the request at the time `now`.
pub open spec fn is_first_step(
    policy: Policy,
    credentials: Credentials,
    secret: Seq<char>,
    now: int,
    step: Step,
) -> bool {
    &&& step == first_step(
        policy,
        text_of(credentials.cookie),
        text_of(credentials.authorization),
        secret,
        now,
    )
    &&& handles_own_tokens(
        policy,
        extracted(text_of(credentials.cookie), text_of(credentials.authorization)),
        secret,
        now,
        step,
    )
}

/// Runs the pipeline on a request up to the lookup, at the present time.
pub fn begin(policy: Policy, credentials: &Credentials, secret: &str) -> (step: Step)
    ensures
        exists|now: i64| is_clock_reading(now as int) && is_first_step(policy, *credentials, secret@, now as int, step),
{
    let now = unix_now();
    let step = begin_at(policy, credentials, secret, now);
    assert(is_first_step(policy, *credentials, secret@, now as int, step));
    step
}

/// Ends the pipeline with what the lookup answered.
pub fn resume(policy: Policy, found: Result<Option<User>, DatabaseError>) -> (verdict: Verdict)
    ensures
        verdict == verdict_of(policy, found),
{
    match found {
        Err(e) => match policy {
            Policy::Enforcing => Verdict::Reject(ApiError::Database(e)),
            Policy::Optional => Verdict::Proceed(Context::Identifier(None)),
        },
        Ok(None) => fail(policy, AuthError::MissingUser),
        Ok(Some(user)) => match policy {
            Policy::Enforcing => Verdict::Proceed(Context::Identity(user)),
            Policy::Optional => Verdict::Proceed(Context::Identifier(Some(user.id))),
        },
    }
}

/// The enforcing middleware up to the lookup.
pub fn jwt(credentials: &Credentials, secret: &str) -> (step: Step)
    ensures
        exists|now: i64|
            is_clock_reading(now as int) && is_first_step(Policy::Enforcing, *credentials, secret@, now as int, step),
{
    begin(Policy::Enforcing, credentials, secret)
}

/// The optional middleware up to the lookup.
pub fn jwt_auth(credentials: &Credentials, secret: &str) -> (step: Step)
    ensures
        exists|now: i64|
            is_clock_reading(now as int) && is_first_step(Policy::Optional, *credentials, secret@, now as int, step),
{
    begin(Policy::Optional, credentials, secret)
}

/// Where a request holds a cookie, the candidate token is the cookie's
/// value, whatever the bearer header holds.
pub proof fn lemma_cookie_wins(cookie: Seq<char>, authorization: Option<Seq<char>>)
    ensures
        extracted(Some(cookie), authorization) == Some(cookie),
{
}

/// A header without the exact prefix `Bearer ` yields no token.
pub proof fn lemma_bearer_prefix_is_exact(header: Seq<char>)
    requires
        bearer_token(header) is Some,
    ensures
        header == bearer_prefix() + bearer_token(header).unwrap(),
{
    assert(header =~= header.subrange(0, 7) + header.subrange(7, header.len() as int));
}

/// The enforcing policy on a request without a token.
pub proof fn lemma_enforcing_missing_token(
    cookie: Option<Seq<char>>,
    authorization: Option<Seq<char>>,
    secret: Seq<char>,
    now: int,
)
    requires
        extracted(cookie, authorization) is None,
    ensures
        first_step(Policy::Enforcing, cookie, authorization, secret, now) == Step::Finish(
            Verdict::Reject(ApiError::AuthError(AuthError::MissingToken)),
        ),
{
}

/// The enforcing policy on a request whose token does not validate, an
/// expired one included, or whose subject is no identifier.
pub proof fn lemma_enforcing_invalid_token(
    cookie: Option<Seq<char>>,
    authorization: Option<Seq<char>>,
    secret: Seq<char>,
    now: int,
)
    requires
        extracted(cookie, authorization) is Some,
        subject_of(extracted(cookie, authorization).unwrap(), secret, now) is None,
    ensures
        first_step(Policy::Enforcing, cookie, authorization, secret, now) == Step::Finish(
            Verdict::Reject(ApiError::AuthError(AuthError::InvalidToken)),
        ),
{
}

/// An expired token names no identifier.
pub proof fn lemma_expired_token_names_nobody(token: Seq<char>, secret: Seq<char>, now: int)
    requires
        validation_of(token_decoded(token, secret), now) == Err::<
            (Seq<char>, u64, u64),
            TokenError,
        >(TokenError::Expired),
    ensures
        subject_of(token, secret, now) is None,
{
}

/// The enforcing policy on a valid token: the identity is looked up by the
/// token's subject; a missing identity is rejected and a found one is
/// attached.
pub proof fn lemma_enforcing_valid_token(
    cookie: Option<Seq<char>>,
    authorization: Option<Seq<char>>,
    secret: Seq<char>,
    now: int,
    user: User,
)
    requires
        extracted(cookie, authorization) is Some,
        subject_of(extracted(cookie, authorization).unwrap(), secret, now) is Some,
    ensures
        first_step(Policy::Enforcing, cookie, authorization, secret, now) == Step::Lookup(
            UserQuery::ById(
                subject_of(extracted(cookie, authorization).unwrap(), secret, now).unwrap(),
            ),
        ),
        verdict_of(Policy::Enforcing, Ok(None)) == Verdict::Reject(
            ApiError::AuthError(AuthError::MissingUser),
        ),
        verdict_of(Policy::Enforcing, Ok(Some(user))) == Verdict::Proceed(Context::Identity(user)),
{
}

/// The optional policy never rejects: every step that ends and every
/// verdict lets the request proceed, with the identifier exactly where the
/// identity was found.
pub proof fn lemma_optional_never_rejects(
    cookie: Option<Seq<char>>,
    authorization: Option<Seq<char>>,
    secret: Seq<char>,
    now: int,
    found: Result<Option<User>, DatabaseError>,
)
    ensures
        first_step(Policy::Optional, cookie, authorization, secret, now) is Finish
            ==> first_step(Policy::Optional, cookie, authorization, secret, now) == Step::Finish(
            Verdict::Proceed(Context::Identifier(None)),
        ),
        verdict_of(Policy::Optional, found) == Verdict::Proceed(
            Context::Identifier(
                match found {
                    Ok(Some(user)) => Some(user.id),
                    _ => None,
                },
            ),
        ),
{
}

/// Both policies take the same first step on a request that names an
/// identifier, and differ only in how a failure ends.
pub proof fn lemma_policies_share_pipeline(
    cookie: Option<Seq<char>>,
    authorization: Option<Seq<char>>,
    secret: Seq<char>,
    now: int,
)
    ensures
        first_step(Policy::Enforcing, cookie, authorization, secret, now) is Lookup
            <==> first_step(Policy::Optional, cookie, authorization, secret, now) is Lookup,
        first_step(Policy::Enforcing, cookie, authorization, secret, now) is Lookup
            ==> first_step(Policy::Enforcing, cookie, authorization, secret, now) == first_step(
            Policy::Optional,
            cookie,
            authorization,
            secret,
            now,
        ),
{
}

} // verus!
