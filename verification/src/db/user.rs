//! Identity records and the queries that select them.
use vstd::prelude::*;
use vstd::string::*;

verus! {

/// What parsing `text` as a UUID yields: its 128-bit value, or nothing where
/// the text is no UUID.
pub uninterp spec fn uuid_parsed(text: Seq<char>) -> Option<u128>;

/// The canonical text of the UUID with the value `id`.
pub uninterp spec fn uuid_text(id: u128) -> Seq<char>;

/// Calls `uuid::Uuid::parse_str` and hands out the value of the parsed UUID.
/// The result depends on the text alone.
#[verifier::external_body]
pub(crate) fn parse_uuid(text: &str) -> (id: Option<u128>)
    ensures
        id == uuid_parsed(text@),
{
    match uuid::Uuid::parse_str(text) {
        Ok(id) => Some(id.as_u128()),
        Err(_) => None,
    }
}

/// Calls `uuid::Uuid::from_u128` and formats the UUID with its `Display`
/// impl, the hyphenated lower-case form, which `parse_str` reads back to the
/// same value.
#[verifier::external_body]
pub(crate) fn format_uuid(id: u128) -> (text: String)
    ensures
        text@ == uuid_text(id),
        uuid_parsed(text@) == Some(id),
{
    uuid::Uuid::from_u128(id).to_string()
}

/// The durable account record. `id` is the value of the record's UUID.
#[derive(Debug, Clone)]
pub struct User {
    pub id: u128,
    pub login: String,
    pub hashed_password: String,
    pub name: String,
    pub email: String,
    pub is_admin: bool,
    pub avatar: String,
}

/// An account that is about to be stored; the store assigns the identifier.
#[derive(Debug, Clone)]
pub struct NewUser {
    pub login: String,
    pub hashed_password: String,
    pub name: String,
    pub email: String,
    pub is_admin: bool,
    pub avatar: String,
}

/// A selection of at most one identity.
#[derive(Debug, Clone)]
pub enum UserQuery {
    ById(u128),
    ByLogin(String),
    ByEmail(String),
    ByLoginOrEmail(String, String),
}

impl UserQuery {
    /// Whether `user` is selected by the query. Logins and emails are
    /// compared exactly, case included.
    pub open spec fn selects(self, user: User) -> bool {
        match self {
            UserQuery::ById(id) => user.id == id,
            UserQuery::ByLogin(login) => user.login@ == login@,
            UserQuery::ByEmail(email) => user.email@ == email@,
            UserQuery::ByLoginOrEmail(login, email) => user.login@ == login@ || user.email@
                == email@,
        }
    }

    /// Decides whether `user` is selected by the query.
    pub fn matches(&self, user: &User) -> (yes: bool)
        ensures
            yes == self.selects(*user),
    {
        match self {
            UserQuery::ById(id) => user.id == *id,
            UserQuery::ByLogin(login) => user.login == *login,
            UserQuery::ByEmail(email) => user.email == *email,
            UserQuery::ByLoginOrEmail(login, email) => user.login == *login || user.email
                == *email,
        }
    }
}

impl User {
    /// The query for the identity with the identifier `id`.
    pub fn by_id(id: u128) -> (query: UserQuery)
        ensures
            query == UserQuery::ById(id),
    {
        UserQuery::ById(id)
    }

    /// The query for the identity with the login `login`.
    pub fn by_login(login: String) -> (query: UserQuery)
        ensures
            query == UserQuery::ByLogin(login),
    {
        UserQuery::ByLogin(login)
    }

    /// The query for the identity with the email `email`.
    pub fn by_email(email: String) -> (query: UserQuery)
        ensures
            query == UserQuery::ByEmail(email),
    {
        UserQuery::ByEmail(email)
    }

    /// The query for an identity that holds the login or the email.
    pub fn by_login_or_email(login: String, email: String) -> (query: UserQuery)
        ensures
            query == UserQuery::ByLoginOrEmail(login, email),
    {
        UserQuery::ByLoginOrEmail(login, email)
    }

    /// The index of the first record of `users` that `query` selects.
    pub fn find(users: &Vec<User>, query: &UserQuery) -> (found: Option<usize>)
        ensures
            match found {
                Some(i) => i < users.len() && query.selects(users[i as int]) && forall|j: int|
                    0 <= j < i ==> !query.selects(#[trigger] users[j]),
                None => forall|j: int| 0 <= j < users.len() ==> !query.selects(#[trigger] users[j]),
            },
    {
        let mut i: usize = 0;
        while i < users.len()
            invariant
                i <= users.len(),
                forall|j: int| 0 <= j < i ==> !query.selects(#[trigger] users[j]),
            decreases users.len() - i,
        {
            if query.matches(&users[i]) {
                return Some(i);
            }
            i += 1;
        }
        None
    }
}

} // verus!
