//! Request bodies and the public projection of an identity.
use vstd::prelude::*;
use vstd::string::*;
use crate::db::user;
use crate::db::user::{format_uuid, uuid_text};

verus! {

/// The body of a registration.
#[derive(Debug, Clone)]
pub struct NewUser {
    pub login: String,
    pub password: String,
    pub email: String,
}

/// An identity as shown to clients: everything but the password hash, with
/// the identifier as UUID text.
#[derive(Debug, Clone)]
pub struct User {
    pub id: String,
    pub login: String,
    pub name: String,
    pub email: String,
    pub is_admin: bool,
    pub avatar: String,
}

/// The body of a removal.
#[derive(Debug, Clone)]
pub struct RemoveUser {
    pub id: String,
}

/// The body of a login: the password and a login name or an email.
#[derive(Debug, Clone)]
pub struct LoginUser {
    pub email: Option<String>,
    pub login: Option<String>,
    pub password: String,
}

/// An avatar given inline.
#[derive(Debug, Clone)]
pub struct Avatar {
    pub content: String,
    pub mime: String,
}

/// An uploaded image file.
#[derive(Debug, Clone)]
pub struct Image {
    pub file_content: Vec<u8>,
}

impl User {
    /// Whether `self` is the public projection of `user`.
    pub open spec fn projects(self, user: user::User) -> bool {
        &&& self.id@ == uuid_text(user.id)
        &&& self.login@ == user.login@
        &&& self.name@ == user.name@
        &&& self.email@ == user.email@
        &&& self.is_admin == user.is_admin
        &&& self.avatar@ == user.avatar@
    }

    /// The public projection of an identity.
    pub fn from(user: &user::User) -> (public: User)
        ensures
            public.projects(*user),
    {
        User {
            id: format_uuid(user.id),
            login: user.login.clone(),
            name: user.name.clone(),
            email: user.email.clone(),
            is_admin: user.is_admin,
            avatar: user.avatar.clone(),
        }
    }
}

} // verus!
