//! The decisions of the account handlers: who may register, who is logged
//! in, what a response shows. The store is asked between the decisions, by
//! whoever drives them.
pub mod schema;

use vstd::prelude::*;
use vstd::string::*;
use crate::api::cookie::{SessionCookie, EXPIRED_MAX_AGE};
use crate::api::errors::{ApiError, AuthError, UserError};
use crate::api::middleware::{failure, handles_own_tokens, Policy, Step};
use crate::api::password::{accepts, hash, verify};
use crate::api::token::{
    claim_times, creation_of, is_clock_reading, signed_token, text_view, unix_now, TokenClaims,
    TokenError,
};
use crate::config::Jwt;
use crate::db::errors::DatabaseError;
use crate::db::user::{format_uuid, parse_uuid, uuid_parsed, uuid_text, NewUser, User, UserQuery};

verus! {

/// The least length of an avatar's identifier.
pub const AVATAR_ID_MIN_LENGTH: u8 = 10;

/// The words of a list, as a set.
pub open spec fn words(list: Seq<String>) -> Set<Seq<char>> {
    Set::new(|w: Seq<char>| exists|i: int| 0 <= i < list.len() && list[i]@ == w)
}

/// The identifier that encodes `number` with at least `min_length`
/// characters and avoids the blocked words, or nothing where every
/// candidate is blocked.
pub uninterp spec fn sqid_text(min_length: u8, blocklist: Set<Seq<char>>, number: u64) -> Option<
    Seq<char>,
>;

/// Builds a `sqids::Sqids` with the default alphabet, the least length and
/// the blocklist, and calls `encode` on the one number. The identifier
/// depends on these three alone: the blocklist is consulted as a set. The
/// encoder pads an identifier up to the least length and makes another one
/// as long as the identifier holds a blocked word; a blocked word of three
/// characters or more is consulted whatever its case, so with a least
/// length of three or more the identifier is none of the blocked words.
#[verifier::external_body]
fn encode_sqid(min_length: u8, blocklist: &Vec<String>, number: u64) -> (id: Option<String>)
    ensures
        match id {
            Some(text) => {
                &&& sqid_text(min_length, words(blocklist@), number) == Some(text@)
                &&& text@.len() >= min_length
                &&& min_length >= 3 ==> !words(blocklist@).contains(text@)
            },
            None => sqid_text(min_length, words(blocklist@), number) is None,
        },
{
    let blocked: std::collections::HashSet<String> = blocklist.iter().cloned().collect();
    match sqids::Sqids::builder().min_length(min_length).blocklist(blocked).build() {
        Ok(encoder) => encoder.encode(&[number]).ok(),
        Err(_) => None,
    }
}

/// The public projections of all identities, in their order.
pub fn all(users: &Vec<User>) -> (listed: Vec<schema::User>)
    ensures
        listed.len() == users.len(),
        forall|i: int| 0 <= i < users.len() ==> (#[trigger] listed[i]).projects(users[i]),
{
    let mut listed: Vec<schema::User> = Vec::new();
    let mut i: usize = 0;
    while i < users.len()
        invariant
            i <= users.len(),
            listed.len() == i,
            forall|j: int| 0 <= j < i ==> (#[trigger] listed[j]).projects(users[j]),
        decreases users.len() - i,
    {
        listed.push(schema::User::from(&users[i]));
        i += 1;
    }
    listed
}

/// The query that finds whoever already holds the login or the email of a
/// registration.
pub fn register_query(body: &schema::NewUser) -> (query: UserQuery)
    ensures
        query == UserQuery::ByLoginOrEmail(body.login, body.email),
{
    User::by_login_or_email(body.login.clone(), body.email.clone())
}

/// Whether `account` is the record to store for the registration `body`
/// when the store held `count` identities: the login is also the display
/// name, the first identity ever is the administrator, nobody else is, and
/// there is no avatar yet.
pub open spec fn is_new_account(account: NewUser, body: schema::NewUser, count: i64) -> bool {
    &&& account.login@ == body.login@
    &&& account.name@ == body.login@
    &&& account.email@ == body.email@
    &&& account.is_admin == (count == 0)
    &&& account.avatar@ == Seq::<char>::empty()
    &&& accepts(account.hashed_password@, body.password@)
}

/// The record to store for a registration whose password hashed to
/// `hashed_password`.
pub fn new_account(body: schema::NewUser, count: i64, hashed_password: String) -> (account: NewUser)
    ensures
        account.login@ == body.login@,
        account.name@ == body.login@,
        account.email@ == body.email@,
        account.is_admin == (count == 0),
        account.avatar@ == Seq::<char>::empty(),
        account.hashed_password == hashed_password,
{
    NewUser {
        login: body.login.clone(),
        hashed_password,
        name: body.login,
        email: body.email,
        is_admin: count == 0,
        avatar: String::new(),
    }
}

/// Decides a registration: `count` is the number of identities in the
/// store, `existing` whoever holds the login or the email. A taken login or
/// email is refused before the password is hashed; otherwise the record to
/// insert comes back, unless hashing failed.
pub fn register(
    body: schema::NewUser,
    count: i64,
    existing: Result<Option<User>, DatabaseError>,
) -> (outcome: Result<NewUser, ApiError>)
    ensures
        match existing {
            Err(e) => outcome == Err::<NewUser, ApiError>(ApiError::Database(e)),
            Ok(Some(_)) => outcome == Err::<NewUser, ApiError>(ApiError::Query(UserError::Exists)),
            Ok(None) => match outcome {
                Ok(account) => is_new_account(account, body, count),
                Err(e) => e == ApiError::Query(UserError::HashPassword),
            },
        },
{
    match existing {
        Err(e) => Err(ApiError::Database(e)),
        Ok(Some(_)) => Err(ApiError::Query(UserError::Exists)),
        Ok(None) => match hash(body.password.as_str()) {
            Ok(hashed_password) => Ok(new_account(body, count, hashed_password)),
            Err(e) => Err(ApiError::Query(e)),
        },
    }
}

/// What a registration answers once the store has taken or refused the
/// record. A refusal for uniqueness is the same `Exists` as an early one.
pub open spec fn registered_of(inserted: Result<User, DatabaseError>) -> Result<User, ApiError> {
    match inserted {
        Ok(user) => Ok(user),
        Err(e) => if e.is_unique_violation() {
            Err(ApiError::Query(UserError::Exists))
        } else {
            Err(ApiError::Database(e))
        },
    }
}

/// Ends a registration with the store's answer to the insert.
pub fn registered(inserted: Result<User, DatabaseError>) -> (outcome: Result<schema::User, ApiError>)
    ensures
        match outcome {
            Ok(public) => inserted is Ok && public.projects(inserted->Ok_0),
            Err(e) => registered_of(inserted) == Err::<User, ApiError>(e),
        },
{
    match inserted {
        Ok(user) => Ok(schema::User::from(&user)),
        Err(e) => {
            if e.unique_violation() {
                Err(ApiError::Query(UserError::Exists))
            } else {
                Err(ApiError::Database(e))
            }
        },
    }
}

/// Parses the identifier of the identity to remove. No ownership or role is
/// asked for.
pub fn remove(body: &schema::RemoveUser) -> (target: Result<u128, ApiError>)
    ensures
        target == match uuid_parsed(body.id@) {
            Some(id) => Ok::<u128, ApiError>(id),
            None => Err::<u128, ApiError>(ApiError::Query(UserError::ParseUuid)),
        },
{
    match parse_uuid(body.id.as_str()) {
        Some(id) => Ok(id),
        None => Err(ApiError::Query(UserError::ParseUuid)),
    }
}

/// The query of a login: by login name where one is given, else by email.
pub open spec fn login_query_of(body: schema::LoginUser) -> Result<UserQuery, ApiError> {
    match body.login {
        Some(login) => Ok(UserQuery::ByLogin(login)),
        None => match body.email {
            Some(email) => Ok(UserQuery::ByEmail(email)),
            None => Err(ApiError::Query(UserError::MissedCredentials)),
        },
    }
}

/// Decides whom a login asks for.
pub fn login_query(body: &schema::LoginUser) -> (query: Result<UserQuery, ApiError>)
    ensures
        query == login_query_of(*body),
{
    match &body.login {
        Some(login) => Ok(User::by_login(login.clone())),
        None => match &body.email {
            Some(email) => Ok(User::by_email(email.clone())),
            None => Err(ApiError::Query(UserError::MissedCredentials)),
        },
    }
}

/// An established session: what the client is shown, the token, and the
/// cookie that carries it.
#[derive(Debug, Clone)]
pub struct Session {
    pub user: schema::User,
    pub token: String,
    pub cookie: SessionCookie,
}

/// The verdict on a login at `now`: the token, or the error. An unknown
/// account and a wrong password give the same error.
pub open spec fn login_verdict(
    found: Result<Option<User>, DatabaseError>,
    password: Seq<char>,
    secret: Seq<char>,
    maxage: i64,
    now: int,
) -> Result<Seq<char>, ApiError> {
    match found {
        Err(e) => Err(ApiError::Database(e)),
        Ok(None) => Err(ApiError::Query(UserError::InvalidCredentials)),
        Ok(Some(user)) => if !accepts(user.hashed_password@, password) {
            Err(ApiError::Query(UserError::InvalidCredentials))
        } else {
            match creation_of(uuid_text(user.id), secret, maxage as int, now) {
                Ok(token) => Ok(token),
                Err(e) => Err(ApiError::Token(e)),
            }
        },
    }
}

/// Whether `outcome` is what a login at `now` answers.
pub open spec fn is_login_outcome(
    outcome: Result<Session, ApiError>,
    found: Result<Option<User>, DatabaseError>,
    password: Seq<char>,
    jwt: Jwt,
    now: int,
) -> bool {
    match outcome {
        Ok(session) => {
            &&& login_verdict(found, password, jwt.secret@, jwt.maxage, now) == Ok::<
                Seq<char>,
                ApiError,
            >(session.token@)
            &&& found matches Ok(Some(user)) && session.user.projects(user) && uuid_parsed(
                uuid_text(user.id),
            ) == Some(user.id)
            &&& session.cookie.is_session(session.token@, jwt.maxage)
        },
        Err(e) => login_verdict(found, password, jwt.secret@, jwt.maxage, now) == Err::<
            Seq<char>,
            ApiError,
        >(e),
    }
}

/// Decides a login at the time `now`: `found` is the store's answer to the
/// login's query. The token names the identity and lives as long as the
/// cookie. A session is owed exactly where an identity was found, its hash
/// accepts the password and the token's times exist.
pub fn login_at(
    found: Result<Option<User>, DatabaseError>,
    password: &str,
    jwt: &Jwt,
    now: i64,
) -> (outcome: Result<Session, ApiError>)
    ensures
        is_login_outcome(outcome, found, password@, *jwt, now as int),
        outcome is Ok <==> (found matches Ok(Some(user)) && accepts(
            user.hashed_password@,
            password@,
        ) && claim_times(now as int, jwt.maxage as int) is Some),
{
    let user = match found {
        Err(e) => {
            return Err(ApiError::Database(e));
        },
        Ok(None) => {
            return Err(ApiError::Query(UserError::InvalidCredentials));
        },
        Ok(Some(user)) => user,
    };
    if !verify(password, user.hashed_password.as_str()) {
        return Err(ApiError::Query(UserError::InvalidCredentials));
    }
    let subject = format_uuid(user.id);
    match TokenClaims::create_at(subject.as_str(), jwt.secret.as_str(), jwt.maxage, now) {
        Ok(token) => {
            let cookie = SessionCookie::session(token.clone(), jwt.maxage);
            Ok(Session { user: schema::User::from(&user), token, cookie })
        },
        Err(e) => Err(ApiError::Token(e)),
    }
}

/// Decides a login at the present time. The clock reads a time since the
/// epoch, so a session is owed wherever `login_at` owes one at that reading.
pub fn login(found: Result<Option<User>, DatabaseError>, password: &str, jwt: &Jwt) -> (outcome:
    Result<Session, ApiError>)
    ensures
        exists|now: i64|
            is_clock_reading(now as int) && is_login_outcome(
                outcome,
                found,
                password@,
                *jwt,
                now as int,
            ),
{
    let now = unix_now();
    login_at(found, password, jwt, now)
}

/// The cookie that ends the session on the client. A token that was copied
/// elsewhere stays valid until it expires.
pub fn logout() -> (cookie: SessionCookie)
    ensures
        cookie.is_session(Seq::<char>::empty(), EXPIRED_MAX_AGE),
{
    SessionCookie::expired()
}

/// What a profile lookup answers.
pub fn profile(found: Result<Option<User>, DatabaseError>) -> (outcome: Result<
    schema::User,
    ApiError,
>)
    ensures
        match found {
            Err(e) => outcome == Err::<schema::User, ApiError>(ApiError::Database(e)),
            Ok(None) => outcome == Err::<schema::User, ApiError>(
                ApiError::Query(UserError::NotFound),
            ),
            Ok(Some(user)) => outcome is Ok && outcome->Ok_0.projects(user),
        },
{
    match found {
        Err(e) => Err(ApiError::Database(e)),
        Ok(None) => Err(ApiError::Query(UserError::NotFound)),
        Ok(Some(user)) => Ok(schema::User::from(&user)),
    }
}

/// Whom the request's own identity is looked up by: the identifier that the
/// optional session attached. Without one the caller is not authorized.
pub fn current(user_id: Option<u128>) -> (query: Result<UserQuery, ApiError>)
    ensures
        query == match user_id {
            Some(id) => Ok::<UserQuery, ApiError>(UserQuery::ById(id)),
            None => Err::<UserQuery, ApiError>(ApiError::Query(UserError::Unauthorized)),
        },
{
    match user_id {
        Some(id) => Ok(User::by_id(id)),
        None => Err(ApiError::Query(UserError::Unauthorized)),
    }
}

/// The identity that a lookup found, or `NotFound`.
pub fn found_user(found: Result<Option<User>, DatabaseError>) -> (outcome: Result<User, ApiError>)
    ensures
        outcome == match found {
            Err(e) => Err::<User, ApiError>(ApiError::Database(e)),
            Ok(None) => Err::<User, ApiError>(ApiError::Query(UserError::NotFound)),
            Ok(Some(user)) => Ok::<User, ApiError>(user),
        },
{
    match found {
        Err(e) => Err(ApiError::Database(e)),
        Ok(None) => Err(ApiError::Query(UserError::NotFound)),
        Ok(Some(user)) => Ok(user),
    }
}

/// The avatar references in use: those of `all` that are not empty, in
/// their order.
pub open spec fn used_avatars(all: Seq<String>) -> Seq<String>
    decreases all.len(),
{
    if all.len() == 0 {
        Seq::<String>::empty()
    } else if all.last()@.len() > 0 {
        used_avatars(all.drop_last()).push(all.last())
    } else {
        used_avatars(all.drop_last())
    }
}

/// The reference of the next avatar: the identifier of the number of
/// avatars in use, with the references in use blocked.
pub open spec fn next_avatar_id(all: Seq<String>) -> Option<Seq<char>> {
    sqid_text(AVATAR_ID_MIN_LENGTH, words(used_avatars(all)), used_avatars(all).len() as u64)
}

/// Every reference that is not empty is among those in use.
pub proof fn lemma_used_avatars_hold_every_reference(all: Seq<String>, i: int)
    requires
        0 <= i < all.len(),
        all[i]@.len() > 0,
    ensures
        words(used_avatars(all)).contains(all[i]@),
    decreases all.len(),
{
    let used = used_avatars(all);
    if i == all.len() - 1 {
        assert(used[used.len() - 1]@ == all[i]@);
    } else {
        let rest = used_avatars(all.drop_last());
        lemma_used_avatars_hold_every_reference(all.drop_last(), i);
        let j = choose|j: int| 0 <= j < rest.len() && rest[j]@ == all.drop_last()[i]@;
        assert(used[j]@ == all[i]@);
    }
}

/// Picks the non-empty references.
pub fn avatars_in_use(all: &Vec<String>) -> (used: Vec<String>)
    ensures
        used@ == used_avatars(all@),
{
    let mut used: Vec<String> = Vec::new();
    let mut i: usize = 0;
    while i < all.len()
        invariant
            i <= all.len(),
            used@ == used_avatars(all@.subrange(0, i as int)),
        decreases all.len() - i,
    {
        proof {
            assert(all@.subrange(0, i + 1).drop_last() =~= all@.subrange(0, i as int));
            assert(all@.subrange(0, i + 1).last() == all@[i as int]);
        }
        if !all[i].as_str().is_empty() {
            used.push(all[i].clone());
        }
        i += 1;
    }
    proof {
        assert(all@.subrange(0, i as int) =~= all@);
    }
    used
}

/// What to do for an avatar upload: store `content` under `avatar_id`,
/// delete the file of `stale` if there is one, and record `avatar_id` on the
/// identity.
#[derive(Debug, Clone)]
pub struct AvatarUpload {
    pub avatar_id: String,
    pub content: Vec<u8>,
    pub stale: Option<String>,
}

/// The uploaded bytes, or `ReadContent` where the request held no file.
pub fn avatar_content(content: Option<Vec<u8>>) -> (outcome: Result<Vec<u8>, ApiError>)
    ensures
        outcome == match content {
            Some(bytes) => Ok::<Vec<u8>, ApiError>(bytes),
            None => Err::<Vec<u8>, ApiError>(ApiError::ReadContent),
        },
{
    match content {
        Some(bytes) => Ok(bytes),
        None => Err(ApiError::ReadContent),
    }
}

/// Plans an avatar upload for `user`: `avatars` are the avatar references of
/// all identities. The new reference encodes how many are in use, has at
/// least `AVATAR_ID_MIN_LENGTH` characters and is none of the references in
/// `avatars`; the identity's old avatar, if it has one, becomes stale. Where
/// no reference can be had the upload fails as an internal error.
pub fn avatar(user: &User, content: Vec<u8>, avatars: &Vec<String>) -> (outcome: Result<
    AvatarUpload,
    ApiError,
>)
    ensures
        match outcome {
            Ok(upload) => {
                &&& next_avatar_id(avatars@) == Some(upload.avatar_id@)
                &&& upload.avatar_id@.len() >= AVATAR_ID_MIN_LENGTH
                &&& forall|i: int|
                    0 <= i < avatars.len() ==> (#[trigger] avatars[i])@ != upload.avatar_id@
                &&& upload.content == content
                &&& match upload.stale {
                    Some(old) => old@ == user.avatar@ && user.avatar@.len() > 0,
                    None => user.avatar@.len() == 0,
                }
            },
            Err(e) => next_avatar_id(avatars@) is None && e == ApiError::Database(
                DatabaseError::Internal,
            ),
        },
{
    let used = avatars_in_use(avatars);
    match encode_sqid(AVATAR_ID_MIN_LENGTH, &used, used.len() as u64) {
        Some(avatar_id) => {
            proof {
                assert forall|i: int| 0 <= i < avatars.len() implies (#[trigger] avatars[i])@
                    != avatar_id@ by {
                    if avatars[i]@.len() > 0 {
                        lemma_used_avatars_hold_every_reference(avatars@, i);
                    }
                }
            }
            let stale = if user.avatar.as_str().is_empty() {
                None
            } else {
                Some(user.avatar.clone())
            };
            Ok(AvatarUpload { avatar_id, content, stale })
        },
        None => Err(ApiError::Database(DatabaseError::Internal)),
    }
}

/// A login that fails for an unknown account and one that fails for a wrong
/// password answer alike, so that a client cannot tell which accounts
/// exist.
pub proof fn lemma_login_failures_are_alike(
    user: User,
    password: Seq<char>,
    secret: Seq<char>,
    maxage: i64,
    now: int,
)
    requires
        !accepts(user.hashed_password@, password),
    ensures
        login_verdict(Ok(Some(user)), password, secret, maxage, now) == login_verdict(
            Ok(None),
            password,
            secret,
            maxage,
            now,
        ),
        login_verdict(Ok(None), password, secret, maxage, now) == Err::<Seq<char>, ApiError>(
            ApiError::Query(UserError::InvalidCredentials),
        ),
{
}

/// The token of a login opens a session for the identity that logged in
/// until it expires, under either policy and whether or not the client was
/// told to discard its cookie; afterwards it is an invalid token.
pub proof fn lemma_issued_token_opens_session(
    policy: Policy,
    session: Session,
    user: User,
    password: Seq<char>,
    jwt: Jwt,
    issued: int,
    now: int,
    step: Step,
)
    requires
        is_login_outcome(Ok(session), Ok(Some(user)), password, jwt, issued),
        handles_own_tokens(policy, Some(session.token@), jwt.secret@, now, step),
    ensures
        now <= issued + jwt.maxage ==> step == Step::Lookup(UserQuery::ById(user.id)),
        now > issued + jwt.maxage ==> step == Step::Finish(
            failure(policy, AuthError::InvalidToken),
        ),
{
    let made = creation_of(uuid_text(user.id), jwt.secret@, jwt.maxage as int, issued);
    assert(made == Ok::<Seq<char>, TokenError>(session.token@));
    assert(Some(session.token@) == Some(made.unwrap()));
}

/// A login with a password that the stored hash accepts is answered with
/// the token of the identity wherever the token's times exist.
pub proof fn lemma_right_password_logs_in(
    user: User,
    password: Seq<char>,
    secret: Seq<char>,
    maxage: i64,
    now: int,
)
    requires
        accepts(user.hashed_password@, password),
        claim_times(now, maxage as int) is Some,
    ensures
        login_verdict(Ok(Some(user)), password, secret, maxage, now) == Ok::<Seq<char>, ApiError>(
            signed_token(uuid_text(user.id), (now + maxage) as u64, now as u64, secret),
        ),
{
}

/// Whoever registered logs in with the password of the registration, by
/// login name or, without one, by email: the query of the login selects the
/// stored identity and the verdict is a token.
pub proof fn lemma_registered_account_logs_in(
    registration: schema::NewUser,
    count: i64,
    account: NewUser,
    user: User,
    body: schema::LoginUser,
    secret: Seq<char>,
    maxage: i64,
    now: int,
)
    requires
        is_new_account(account, registration, count),
        user.login@ == account.login@,
        user.email@ == account.email@,
        user.hashed_password@ == account.hashed_password@,
        body.password@ == registration.password@,
        match body.login {
            Some(login) => login@ == registration.login@,
            None => body.email matches Some(email) && email@ == registration.email@,
        },
        claim_times(now, maxage as int) is Some,
    ensures
        login_query_of(body) matches Ok(query) && query.selects(user),
        login_verdict(Ok(Some(user)), body.password@, secret, maxage, now) is Ok,
{
}

/// A login with a password that the stored hash does not accept is refused
/// as invalid credentials, at every time.
pub proof fn lemma_wrong_password_is_refused(
    user: User,
    password: Seq<char>,
    secret: Seq<char>,
    maxage: i64,
    now: int,
)
    requires
        !accepts(user.hashed_password@, password),
    ensures
        login_verdict(Ok(Some(user)), password, secret, maxage, now) == Err::<Seq<char>, ApiError>(
            ApiError::Query(UserError::InvalidCredentials),
        ),
{
}

/// A uniqueness failure of the insert ends a registration as a taken login
/// or email found beforehand does.
pub proof fn lemma_late_conflict_is_exists(e: DatabaseError)
    requires
        e.is_unique_violation(),
    ensures
        registered_of(Err(e)) == Err::<User, ApiError>(ApiError::Query(UserError::Exists)),
{
}

} // verus!
