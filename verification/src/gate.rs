//! The token gate in front of the HTTP handlers: a read-only check of the access token
//! that a request carries in its query, and the choice of the response that follows.

use vstd::prelude::*;
use crate::auth::token_owner;
use crate::auth::AuthManager;
use crate::users::Credentials;

verus! {

/// The status code of a response that is served.
pub const STATUS_OK: u16 = 200;

/// The status code of a response that is refused for want of a valid token.
pub const STATUS_UNAUTHORIZED: u16 = 401;

/// The request carried no token, or one that no user owns.
#[derive(Clone, Copy, Debug, PartialEq, Eq, Structural)]
pub struct Unauthorized;

/// Who a request with `token` in its query acts for.
pub open spec fn authorized_user(store: Credentials, token: Option<Seq<char>>) -> Result<
    Seq<char>,
    Unauthorized,
> {
    match token {
        Some(token) => match token_owner(store.users, token) {
            Ok(username) => Ok(username),
            Err(_) => Err(Unauthorized),
        },
        None => Err(Unauthorized),
    }
}

/// The owner of the token that the request carries.
pub fn authorize(store: &AuthManager, token: Option<&str>) -> (outcome: Result<
    String,
    Unauthorized,
>)
    ensures
        match authorized_user(
            store@,
            match token {
                Some(token) => Some(token@),
                None => None,
            },
        ) {
            Ok(username) => outcome matches Ok(name) && name@ == username,
            Err(_) => outcome is Err,
        },
{
    match token {
        Some(token) => match store.validate_token(token) {
            Ok(username) => Ok(username),
            Err(_) => Err(Unauthorized),
        },
        None => Err(Unauthorized),
    }
}

/// What the landing page answers.
#[derive(Clone, Copy, Debug, PartialEq, Eq, Structural)]
pub enum LandingPage {
    /// The application shell, for a valid token.
    Shell,
    /// The page that asks for a token, for a request without one.
    Login,
    /// A refusal, for a token that no user owns.
    Refused,
}

impl LandingPage {
    /// The status code that goes with the page: only a refusal is not served.
    pub fn status_code(&self) -> (code: u16)
        ensures
            code == if *self == LandingPage::Refused {
                STATUS_UNAUTHORIZED
            } else {
                STATUS_OK
            },
    {
        match self {
            LandingPage::Refused => STATUS_UNAUTHORIZED,
            _ => STATUS_OK,
        }
    }
}

/// The landing page for a request with `token` in its query.
pub open spec fn landing_page(store: Credentials, token: Option<Seq<char>>) -> LandingPage {
    match token {
        None => LandingPage::Login,
        Some(token) => if token_owner(store.users, token) is Ok {
            LandingPage::Shell
        } else {
            LandingPage::Refused
        },
    }
}

/// Chooses the landing page: a request without a token is asked for one rather than
/// refused, so that a person has a way in.
pub fn index_page(store: &AuthManager, token: Option<&str>) -> (page: LandingPage)
    ensures
        page == landing_page(
            store@,
            match token {
                Some(token) => Some(token@),
                None => None,
            },
        ),
{
    match token {
        None => LandingPage::Login,
        Some(token) => match store.validate_token(token) {
            Ok(_) => LandingPage::Shell,
            Err(_) => LandingPage::Refused,
        },
    }
}

/// The status code of the status endpoint for a request with `token` in its query: the
/// report is served to the owner of a token and to nobody else.
pub fn status_code(store: &AuthManager, token: Option<&str>) -> (code: u16)
    ensures
        code == if authorized_user(
            store@,
            match token {
                Some(token) => Some(token@),
                None => None,
            },
        ) is Ok {
            STATUS_OK
        } else {
            STATUS_UNAUTHORIZED
        },
{
    match authorize(store, token) {
        Ok(_) => STATUS_OK,
        Err(_) => STATUS_UNAUTHORIZED,
    }
}

} // verus!
