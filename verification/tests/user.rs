use elnafo::api::errors::{ApiError, UserError};
use elnafo::api::middleware::{begin_at, resume, Context, Credentials, Policy, Step, Verdict};
use elnafo::api::password::{hash, verify};
use elnafo::api::token::{TokenClaims, TokenError};
use elnafo::api::user::schema;
use elnafo::api::user::{
    all, avatar, avatar_content, avatars_in_use, current, found_user, login, login_at,
    login_query, logout, new_account, profile, register, register_query, registered, remove,
};
use elnafo::config::{Config, Jwt};
use elnafo::db::errors::{DatabaseError, QueryFailure};
use elnafo::db::user::{NewUser, User, UserQuery};

const ID: u128 = 0x550e8400_e29b_41d4_a716_446655440000;
const ID_TEXT: &str = "550e8400-e29b-41d4-a716-446655440000";

fn jwt() -> Jwt {
    Jwt { secret: "secret".to_string(), expires_in: "60m".to_string(), maxage: 3600 }
}

fn body(login: &str, password: &str, email: &str) -> schema::NewUser {
    schema::NewUser {
        login: login.to_string(),
        password: password.to_string(),
        email: email.to_string(),
    }
}

fn stored(id: u128, login: &str, password: &str, email: &str) -> User {
    User {
        id,
        login: login.to_string(),
        hashed_password: hash(password).unwrap(),
        name: login.to_string(),
        email: email.to_string(),
        is_admin: false,
        avatar: String::new(),
    }
}

#[test]
fn registration_asks_for_login_or_email() {
    match register_query(&body("alice", "pw1", "alice@x.com")) {
        UserQuery::ByLoginOrEmail(login, email) => {
            assert_eq!(login, "alice");
            assert_eq!(email, "alice@x.com");
        }
        other => panic!("unexpected query {:?}", other),
    }
}

#[test]
fn first_registration_is_the_administrator() {
    let account = register(body("alice", "pw1", "alice@x.com"), 0, Ok(None)).unwrap();
    assert_eq!(account.login, "alice");
    assert_eq!(account.name, "alice");
    assert_eq!(account.email, "alice@x.com");
    assert!(account.is_admin);
    assert_eq!(account.avatar, "");
    assert_ne!(account.hashed_password, "pw1");
    assert!(verify("pw1", &account.hashed_password));
}

#[test]
fn later_registrations_are_not_administrators() {
    let account = register(body("bob", "pw", "bob@x.com"), 1, Ok(None)).unwrap();
    assert!(!account.is_admin);
    let account = register(body("bob", "pw", "bob@x.com"), -1, Ok(None)).unwrap();
    assert!(!account.is_admin);
}

#[test]
fn taken_login_or_email_is_refused() {
    let holder = stored(ID, "alice", "pw1", "alice@x.com");
    let outcome = register(body("alice", "pw2", "other@x.com"), 1, Ok(Some(holder)));
    assert!(matches!(outcome, Err(ApiError::Query(UserError::Exists))));
}

#[test]
fn registration_reports_a_storage_failure() {
    let outcome = register(body("alice", "pw", "a@x.com"), 0, Err(DatabaseError::Connection));
    assert!(matches!(outcome, Err(ApiError::Database(DatabaseError::Connection))));
}

#[test]
fn new_account_takes_the_given_hash() {
    let account = new_account(body("carol", "pw", "c@x.com"), 0, "the-hash".to_string());
    assert_eq!(account.hashed_password, "the-hash");
    assert_eq!(account.login, "carol");
    assert_eq!(account.name, "carol");
    assert_eq!(account.email, "c@x.com");
    assert!(account.is_admin);
    assert!(!new_account(body("carol", "pw", "c@x.com"), 5, String::new()).is_admin);
}

#[test]
fn inserted_identity_is_shown_without_its_hash() {
    let public = registered(Ok(stored(ID, "alice", "pw1", "alice@x.com"))).unwrap();
    assert_eq!(public.id, ID_TEXT);
    assert_eq!(public.login, "alice");
    assert_eq!(public.email, "alice@x.com");
}

#[test]
fn late_uniqueness_failure_is_exists() {
    let refused = DatabaseError::Query(QueryFailure::UniqueViolation, "users_login_key".to_string());
    assert!(matches!(registered(Err(refused)), Err(ApiError::Query(UserError::Exists))));
    let other = DatabaseError::Query(QueryFailure::Other, "broken pipe".to_string());
    assert!(matches!(
        registered(Err(other)),
        Err(ApiError::Database(DatabaseError::Query(QueryFailure::Other, _)))
    ));
    assert!(matches!(
        registered(Err(DatabaseError::Connection)),
        Err(ApiError::Database(DatabaseError::Connection))
    ));
}

#[test]
fn removal_parses_the_identifier() {
    assert!(matches!(remove(&schema::RemoveUser { id: ID_TEXT.to_string() }), Ok(ID)));
    assert!(matches!(
        remove(&schema::RemoveUser { id: "550e8400e29b41d4a716446655440000".to_string() }),
        Ok(ID)
    ));
    assert!(matches!(
        remove(&schema::RemoveUser { id: "alice".to_string() }),
        Err(ApiError::Query(UserError::ParseUuid))
    ));
    assert!(matches!(
        remove(&schema::RemoveUser { id: String::new() }),
        Err(ApiError::Query(UserError::ParseUuid))
    ));
}

#[test]
fn login_asks_by_login_then_by_email() {
    let both = schema::LoginUser {
        email: Some("alice@x.com".to_string()),
        login: Some("alice".to_string()),
        password: "pw1".to_string(),
    };
    assert!(matches!(login_query(&both), Ok(UserQuery::ByLogin(l)) if l == "alice"));
    let email = schema::LoginUser {
        email: Some("alice@x.com".to_string()),
        login: None,
        password: "pw1".to_string(),
    };
    assert!(matches!(login_query(&email), Ok(UserQuery::ByEmail(e)) if e == "alice@x.com"));
    let neither = schema::LoginUser { email: None, login: None, password: "pw1".to_string() };
    assert!(matches!(login_query(&neither), Err(ApiError::Query(UserError::MissedCredentials))));
}

#[test]
fn login_issues_a_token_and_a_cookie() {
    let alice = stored(ID, "alice", "pw1", "alice@x.com");
    let session = login_at(Ok(Some(alice)), "pw1", &jwt(), 1_700_000_000).unwrap();
    assert_eq!(session.user.id, ID_TEXT);
    assert_eq!(session.user.login, "alice");
    let claims = TokenClaims::validate_at(&session.token, "secret", 1_700_000_000).unwrap();
    assert_eq!(claims.sub, ID_TEXT);
    assert_eq!(claims.iat, 1_700_000_000);
    assert_eq!(claims.exp, 1_700_003_600);
    assert_eq!(session.cookie.value, session.token);
    assert_eq!(session.cookie.max_age, 3600);
    assert_eq!(
        session.cookie.header(),
        format!("token={}; HttpOnly; SameSite=None; Secure; Path=/; Max-Age=3600", session.token)
    );
}

#[test]
fn cookie_lives_as_long_as_the_token() {
    let alice = stored(ID, "alice", "pw1", "alice@x.com");
    let short = Jwt { secret: "secret".to_string(), expires_in: "1m".to_string(), maxage: 60 };
    let session = login_at(Ok(Some(alice)), "pw1", &short, 1000).unwrap();
    assert_eq!(session.cookie.max_age, 60);
    let claims = TokenClaims::validate_at(&session.token, "secret", 1060).unwrap();
    assert_eq!(claims.exp - claims.iat, 60);
    assert_eq!(
        TokenClaims::validate_at(&session.token, "secret", 1061).unwrap_err(),
        TokenError::Expired
    );
}

#[test]
fn unknown_account_and_wrong_password_answer_alike() {
    let alice = stored(ID, "alice", "pw1", "alice@x.com");
    let wrong = login_at(Ok(Some(alice)), "pw2", &jwt(), 1000).unwrap_err();
    let unknown = login_at(Ok(None), "pw1", &jwt(), 1000).unwrap_err();
    assert!(matches!(wrong, ApiError::Query(UserError::InvalidCredentials)));
    assert!(matches!(unknown, ApiError::Query(UserError::InvalidCredentials)));
    assert_eq!(wrong.status(), unknown.status());
    assert_eq!(wrong.message(), unknown.message());
}

#[test]
fn corrupt_stored_hash_is_invalid_credentials() {
    let mut alice = stored(ID, "alice", "pw1", "alice@x.com");
    alice.hashed_password = "corrupt".to_string();
    assert!(matches!(
        login_at(Ok(Some(alice)), "pw1", &jwt(), 1000),
        Err(ApiError::Query(UserError::InvalidCredentials))
    ));
}

#[test]
fn login_reports_a_storage_failure() {
    assert!(matches!(
        login_at(Err(DatabaseError::Connection), "pw1", &jwt(), 1000),
        Err(ApiError::Database(DatabaseError::Connection))
    ));
}

#[test]
fn login_before_the_epoch_cannot_issue_a_token() {
    let alice = stored(ID, "alice", "pw1", "alice@x.com");
    assert!(matches!(
        login_at(Ok(Some(alice)), "pw1", &jwt(), -1),
        Err(ApiError::Token(TokenError::Signing))
    ));
}

#[test]
fn login_reads_the_clock() {
    let alice = stored(ID, "alice", "pw1", "alice@x.com");
    let session = login(Ok(Some(alice)), "pw1", &jwt()).unwrap();
    let claims = TokenClaims::validate(session.token, "secret".to_string()).unwrap();
    assert_eq!(claims.sub, ID_TEXT);
    assert_eq!(claims.exp, claims.iat + 3600);
}

#[test]
fn profile_shows_the_found_identity() {
    let public = profile(Ok(Some(stored(ID, "alice", "pw1", "alice@x.com")))).unwrap();
    assert_eq!(public.login, "alice");
    assert!(matches!(profile(Ok(None)), Err(ApiError::Query(UserError::NotFound))));
    assert!(matches!(
        profile(Err(DatabaseError::Connection)),
        Err(ApiError::Database(DatabaseError::Connection))
    ));
}

#[test]
fn current_needs_an_identifier() {
    assert!(matches!(current(Some(ID)), Ok(UserQuery::ById(ID))));
    assert!(matches!(current(None), Err(ApiError::Query(UserError::Unauthorized))));
}

#[test]
fn found_user_or_not_found() {
    assert_eq!(found_user(Ok(Some(stored(ID, "alice", "pw1", "a@x.com")))).unwrap().id, ID);
    assert!(matches!(found_user(Ok(None)), Err(ApiError::Query(UserError::NotFound))));
    assert!(matches!(
        found_user(Err(DatabaseError::Internal)),
        Err(ApiError::Database(DatabaseError::Internal))
    ));
}

#[test]
fn all_projects_in_order() {
    let users = vec![stored(1, "a", "p", "a@x"), stored(2, "b", "p", "b@x")];
    let listed = all(&users);
    assert_eq!(listed.len(), 2);
    assert_eq!(listed[0].login, "a");
    assert_eq!(listed[0].id, "00000000-0000-0000-0000-000000000001");
    assert_eq!(listed[1].login, "b");
    assert_eq!(listed[1].id, "00000000-0000-0000-0000-000000000002");
    assert!(all(&Vec::new()).is_empty());
}

#[test]
fn avatars_in_use_are_the_non_empty_ones() {
    let all = vec!["".to_string(), "abc".to_string(), "".to_string(), "def".to_string()];
    assert_eq!(avatars_in_use(&all), vec!["abc".to_string(), "def".to_string()]);
    assert!(avatars_in_use(&vec![String::new()]).is_empty());
}

#[test]
fn missing_upload_is_unreadable_content() {
    assert!(matches!(avatar_content(None), Err(ApiError::ReadContent)));
    assert_eq!(avatar_content(Some(vec![1, 2, 3])).unwrap(), vec![1, 2, 3]);
}

#[test]
fn avatar_identifier_encodes_the_number_in_use() {
    let alice = stored(ID, "alice", "pw1", "alice@x.com");
    let none_yet = avatar(&alice, vec![9], &vec![String::new(), String::new()]).unwrap();
    let encoder = sqids::Sqids::builder().min_length(10).blocklist(Default::default()).build().unwrap();
    assert_eq!(none_yet.avatar_id, encoder.encode(&[0]).unwrap());
    assert_eq!(encoder.decode(&none_yet.avatar_id), vec![0]);
    assert_eq!(none_yet.avatar_id.len(), 10);
    assert_eq!(none_yet.content, vec![9]);
    assert_eq!(none_yet.stale, None);
    let two = avatar(&alice, vec![], &vec!["x1".to_string(), String::new(), "y2".to_string()]).unwrap();
    assert_eq!(encoder.decode(&two.avatar_id), vec![2]);
    assert_ne!(two.avatar_id, none_yet.avatar_id);
}

#[test]
fn avatar_identifier_avoids_those_in_use() {
    let alice = stored(ID, "alice", "pw1", "alice@x.com");
    let free = avatar(&alice, vec![], &vec!["placeholder".to_string()]).unwrap().avatar_id;
    let blocked = avatar(&alice, vec![], &vec![free.clone()]).unwrap().avatar_id;
    assert_ne!(blocked, free);
    assert_eq!(blocked.len(), 10);
    let mut in_use = vec![String::new()];
    for _ in 0..20 {
        let next = avatar(&alice, vec![], &in_use).unwrap().avatar_id;
        assert!(next.len() >= 10);
        assert!(!in_use.contains(&next));
        in_use.push(next);
    }
}

#[test]
fn avatar_identifier_avoids_those_in_use_in_any_case() {
    let alice = stored(ID, "alice", "pw1", "alice@x.com");
    let free = avatar(&alice, vec![], &vec!["placeholder".to_string()]).unwrap().avatar_id;
    let upper = avatar(&alice, vec![], &vec![free.to_uppercase()]).unwrap().avatar_id;
    assert_ne!(upper, free.to_uppercase());
    assert_ne!(upper, free);
}

#[test]
fn right_password_logs_in_at_every_representable_time() {
    for now in [0, 1, 1_700_000_000, elnafo::api::token::MAX_TIMESTAMP - 3600] {
        let alice = stored(ID, "alice", "pw1", "alice@x.com");
        assert!(login_at(Ok(Some(alice)), "pw1", &jwt(), now).is_ok());
    }
    let alice = stored(ID, "alice", "pw1", "alice@x.com");
    assert!(matches!(
        login_at(Ok(Some(alice)), "pw1", &jwt(), elnafo::api::token::MAX_TIMESTAMP - 3599),
        Err(ApiError::Token(TokenError::Signing))
    ));
}

#[test]
fn old_avatar_becomes_stale() {
    let mut alice = stored(ID, "alice", "pw1", "alice@x.com");
    alice.avatar = "oldavatar1".to_string();
    let upload = avatar(&alice, vec![1], &vec!["oldavatar1".to_string()]).unwrap();
    assert_eq!(upload.stale, Some("oldavatar1".to_string()));
    assert_ne!(upload.avatar_id, "oldavatar1");
}

struct Store {
    users: Vec<User>,
    next_id: u128,
}

impl Store {
    fn find(&self, query: &UserQuery) -> Result<Option<User>, DatabaseError> {
        Ok(User::find(&self.users, query).map(|i| self.users[i].clone()))
    }

    fn insert(&mut self, account: NewUser) -> Result<User, DatabaseError> {
        let taken = User::by_login_or_email(account.login.clone(), account.email.clone());
        if User::find(&self.users, &taken).is_some() {
            return Err(DatabaseError::Query(QueryFailure::UniqueViolation, "unique".to_string()));
        }
        let user = User {
            id: self.next_id,
            login: account.login,
            hashed_password: account.hashed_password,
            name: account.name,
            email: account.email,
            is_admin: account.is_admin,
            avatar: account.avatar,
        };
        self.next_id += 1;
        self.users.push(user.clone());
        Ok(user)
    }

    fn register(&mut self, login: &str, password: &str, email: &str) -> Result<schema::User, ApiError> {
        let request = body(login, password, email);
        let count = self.users.len() as i64;
        let existing = self.find(&register_query(&request));
        let account = register(request, count, existing)?;
        registered(self.insert(account))
    }

    fn login(&self, email: &str, password: &str, config: &Config, now: i64) -> Result<elnafo::api::user::Session, ApiError> {
        let request = schema::LoginUser {
            email: Some(email.to_string()),
            login: None,
            password: password.to_string(),
        };
        let query = login_query(&request)?;
        login_at(self.find(&query), &request.password, &config.jwt, now)
    }

    fn protected(&self, credentials: &Credentials, config: &Config, now: i64) -> Verdict {
        match begin_at(Policy::Enforcing, credentials, &config.jwt.secret, now) {
            Step::Lookup(query) => resume(Policy::Enforcing, self.find(&query)),
            Step::Finish(verdict) => verdict,
        }
    }
}

#[test]
fn end_to_end_register_login_logout() {
    let config = Config::new();
    let mut store = Store { users: Vec::new(), next_id: ID };
    let now = 1_700_000_000;

    let alice = store.register("alice", "pw1", "alice@x.com").unwrap();
    assert_eq!(alice.login, "alice");
    assert!(alice.is_admin);

    let again = store.register("alice", "pw9", "alice2@x.com");
    assert!(matches!(again, Err(ApiError::Query(UserError::Exists))));
    assert_eq!(again.unwrap_err().status(), 409);

    let bob = store.register("bob", "pw2", "bob@x.com").unwrap();
    assert!(!bob.is_admin);

    let session = store.login("alice@x.com", "pw1", &config, now).unwrap();
    assert!(session.cookie.header().starts_with("token="));

    let wrong = store.login("alice@x.com", "nope", &config, now);
    assert!(matches!(wrong, Err(ApiError::Query(UserError::InvalidCredentials))));

    let with_cookie = Credentials { cookie: Some(session.token.clone()), authorization: None };
    match store.protected(&with_cookie, &config, now + 10) {
        Verdict::Proceed(Context::Identity(user)) => assert_eq!(user.login, "alice"),
        other => panic!("unexpected verdict {:?}", other),
    }

    let cleared = logout();
    assert_eq!(cleared.value, "");
    assert!(cleared.max_age < 0);

    let resubmitted = Credentials {
        cookie: None,
        authorization: Some(format!("Bearer {}", session.token)),
    };
    match store.protected(&resubmitted, &config, now + 3600) {
        Verdict::Proceed(Context::Identity(user)) => assert_eq!(user.login, "alice"),
        other => panic!("unexpected verdict {:?}", other),
    }
    assert!(matches!(
        store.protected(&resubmitted, &config, now + 3601),
        Verdict::Reject(ApiError::AuthError(_))
    ));

    store.users.retain(|u| u.login != "alice");
    match store.protected(&with_cookie, &config, now + 10) {
        Verdict::Reject(ApiError::AuthError(e)) => {
            assert_eq!(e, elnafo::api::errors::AuthError::MissingUser)
        }
        other => panic!("unexpected verdict {:?}", other),
    }
}

#[test]
fn concurrent_registration_loses_at_the_insert() {
    let mut store = Store { users: Vec::new(), next_id: 1 };
    let first = register(body("alice", "pw1", "alice@x.com"), 0, Ok(None)).unwrap();
    let second = register(body("alice", "pw2", "alice@y.com"), 0, Ok(None)).unwrap();
    assert!(registered(store.insert(first)).is_ok());
    assert!(matches!(registered(store.insert(second)), Err(ApiError::Query(UserError::Exists))));
}
