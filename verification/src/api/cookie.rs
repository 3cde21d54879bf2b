//! The session cookie and the text of its `Set-Cookie` header.
use vstd::prelude::*;
use vstd::string::*;
use crate::text::signed_decimal;

verus! {

/// When a browser sends the cookie along with cross-site requests.
#[derive(Debug, Clone, Copy, PartialEq, Eq, Structural)]
pub enum SameSite {
    Strict,
    Lax,
    Unrestricted,
}

impl SameSite {
    /// The attribute's value in a header.
    pub open spec fn text(self) -> Seq<char> {
        match self {
            SameSite::Strict => "Strict"@,
            SameSite::Lax => "Lax"@,
            SameSite::Unrestricted => "None"@,
        }
    }
}

/// A cookie as the service emits it.
#[derive(Debug, Clone)]
pub struct SessionCookie {
    pub name: String,
    pub value: String,
    pub path: String,
    /// Lifetime in seconds; a negative lifetime makes a client discard the
    /// cookie.
    pub max_age: i64,
    pub same_site: SameSite,
    pub secure: bool,
    pub http_only: bool,
}

/// The lifetime of the cookie that ends a session: one hour in the past.
pub const EXPIRED_MAX_AGE: i64 = -3600;

impl SessionCookie {
    /// The cookie that carries `token` for `max_age` seconds: named `token`,
    /// for every path, hidden from scripts, sent over secure transport only
    /// and along with cross-site requests.
    pub open spec fn is_session(self, token: Seq<char>, max_age: i64) -> bool {
        &&& self.name@ == "token"@
        &&& self.value@ == token
        &&& self.path@ == "/"@
        &&& self.max_age == max_age
        &&& self.same_site == SameSite::Unrestricted
        &&& self.secure
        &&& self.http_only
    }

    /// The text of the `Set-Cookie` header value.
    pub open spec fn header_text(self) -> Seq<char> {
        self.name@ + "="@ + self.value@ + (if self.http_only {
            "; HttpOnly"@
        } else {
            Seq::<char>::empty()
        }) + "; SameSite="@ + self.same_site.text() + (if self.secure {
            "; Secure"@
        } else {
            Seq::<char>::empty()
        }) + "; Path="@ + self.path@ + "; Max-Age="@ + signed_decimal(self.max_age as int)
    }

    /// The cookie that establishes a session.
    pub fn session(token: String, max_age: i64) -> (cookie: SessionCookie)
        ensures
            cookie.is_session(token@, max_age),
            cookie.value == token,
    {
        SessionCookie {
            name: String::from_str("token"),
            value: token,
            path: String::from_str("/"),
            max_age,
            same_site: SameSite::Unrestricted,
            secure: true,
            http_only: true,
        }
    }

    /// The cookie that ends a session: the same cookie with an empty value
    /// and a lifetime that has already passed.
    pub fn expired() -> (cookie: SessionCookie)
        ensures
            cookie.is_session(Seq::<char>::empty(), EXPIRED_MAX_AGE),
    {
        SessionCookie::session(String::new(), EXPIRED_MAX_AGE)
    }

    /// The `Set-Cookie` header value of the cookie.
    pub fn header(&self) -> (text: String)
        ensures
            text@ == self.header_text(),
    {
        render(self)
    }
}

/// Builds an `axum_extra::extract::cookie::Cookie` with the seven fields and
/// formats it with the cookie's `Display` impl, which writes name and value
/// unencoded, then `HttpOnly`, `SameSite`, `Secure`, `Path` and `Max-Age`
/// (in whole seconds) in this order, each flag only where it is set.
#[verifier::external_body]
fn render(cookie: &SessionCookie) -> (text: String)
    ensures
        text@ == cookie.header_text(),
{
    axum_extra::extract::cookie::Cookie::build((cookie.name.clone(), cookie.value.clone()))
        .path(cookie.path.clone())
        .max_age(time::Duration::seconds(cookie.max_age))
        .same_site(match cookie.same_site {
            SameSite::Strict => axum_extra::extract::cookie::SameSite::Strict,
            SameSite::Lax => axum_extra::extract::cookie::SameSite::Lax,
            SameSite::Unrestricted => axum_extra::extract::cookie::SameSite::None,
        })
        .secure(cookie.secure)
        .http_only(cookie.http_only)
        .build()
        .to_string()
}

/// The header of a session cookie, written out.
pub proof fn lemma_session_header(cookie: SessionCookie, token: Seq<char>, max_age: i64)
    requires
        cookie.is_session(token, max_age),
    ensures
        cookie.header_text() == "token="@ + token
            + "; HttpOnly; SameSite=None; Secure; Path=/; Max-Age="@ + signed_decimal(
            max_age as int,
        ),
{
    reveal_strlit("token");
    reveal_strlit("=");
    reveal_strlit("token=");
    reveal_strlit("/");
    reveal_strlit("None");
    reveal_strlit("; HttpOnly");
    reveal_strlit("; SameSite=");
    reveal_strlit("; Secure");
    reveal_strlit("; Path=");
    reveal_strlit("; Max-Age=");
    reveal_strlit("; HttpOnly; SameSite=None; Secure; Path=/; Max-Age=");
    assert(cookie.header_text() =~= "token="@ + token
        + "; HttpOnly; SameSite=None; Secure; Path=/; Max-Age="@ + signed_decimal(max_age as int));
}

} // verus!
