//! The session of a principal.
//!
//! A session is stateless: the principal travels in a signed cookie, and
//! the service keeps no list of sessions. Signing, encrypting and encoding
//! the cookie belong to the transport. This module says what the transport
//! is told to do, and what a request's cookie comes to.

use vstd::prelude::*;
use crate::errors::ServiceError;
use crate::models::{LoggedUser, LoggedUserView};

verus! {

/// How long a session lasts, in seconds: twenty-four hours.
pub const SESSION_MAX_AGE: i64 = 86_400;

/// What a request's session cookie held, once the transport has checked and
/// decoded it.
#[derive(Debug, PartialEq, Eq)]
pub enum SessionIdentity {
    /// The request carried no session.
    Absent,
    /// The request carried one that failed its integrity check or could not
    /// be decoded.
    Unreadable,
    /// The request carried the session of this principal.
    Principal(LoggedUser),
}

/// What the transport is to do with the session.
#[derive(Debug, PartialEq, Eq)]
pub enum SessionCommand {
    /// Hand the client a session for this principal.
    Remember(LoggedUser),
    /// Have the client drop its session.
    Forget,
}

/// A `SessionCommand` over the view of its principal.
pub enum SessionCommandView {
    Remember(LoggedUserView),
    Forget,
}

impl View for SessionCommand {
    type V = SessionCommandView;

    open spec fn view(&self) -> SessionCommandView {
        match self {
            SessionCommand::Remember(principal) => SessionCommandView::Remember(principal@),
            SessionCommand::Forget => SessionCommandView::Forget,
        }
    }
}

/// A principal who has just proved who they are, with the command that
/// issues their session.
#[derive(Debug, PartialEq, Eq)]
pub struct SignedIn {
    pub principal: LoggedUser,
    pub session: SessionCommand,
}

/// A `SignedIn` over the views of its parts.
pub struct SignedInView {
    pub principal: LoggedUserView,
    pub session: SessionCommandView,
}

impl View for SignedIn {
    type V = SignedInView;

    open spec fn view(&self) -> SignedInView {
        SignedInView { principal: self.principal@, session: self.session@ }
    }
}

/// The principal `principal`, signed in: the session that is issued is
/// theirs.
pub open spec fn signed_in(principal: LoggedUserView) -> SignedInView {
    SignedInView { principal, session: SessionCommandView::Remember(principal) }
}

/// The attributes of the session cookie.
#[derive(Debug, PartialEq, Eq)]
pub struct CookiePolicy {
    pub name: String,
    pub path: String,
    pub max_age: i64,
    pub http_only: bool,
    pub secure: bool,
}

/// The principal that a session cookie stands for: `Unauthorized` where
/// there is none or it cannot be read.
pub open spec fn extracted(identity: SessionIdentity) -> Result<LoggedUser, ServiceError> {
    match identity {
        SessionIdentity::Principal(principal) => Ok(principal),
        SessionIdentity::Absent => Err(ServiceError::Unauthorized),
        SessionIdentity::Unreadable => Err(ServiceError::Unauthorized),
    }
}

impl LoggedUser {
    /// The principal of a request, from what its session cookie held.
    pub fn from_request(identity: SessionIdentity) -> (r: Result<Self, ServiceError>)
        ensures
            r == extracted(identity),
    {
        match identity {
            SessionIdentity::Principal(principal) => Ok(principal),
            SessionIdentity::Absent => Err(ServiceError::Unauthorized),
            SessionIdentity::Unreadable => Err(ServiceError::Unauthorized),
        }
    }
}

/// Issues a session for `principal`.
pub fn issue(principal: &LoggedUser) -> (r: SessionCommand)
    ensures
        r == SessionCommand::Remember(*principal),
{
    SessionCommand::Remember(principal.clone())
}

/// Signs `principal` in: issues their session and hands both back.
pub fn sign_in(principal: LoggedUser) -> (r: SignedIn)
    ensures
        r@ == signed_in(principal@),
{
    let session = issue(&principal);
    SignedIn { principal, session }
}

/// Revokes the session. This always succeeds; it rests on the client, which
/// is told to drop the cookie.
pub fn revoke() -> (r: SessionCommand)
    ensures
        r == SessionCommand::Forget,
{
    SessionCommand::Forget
}

/// The attributes under which the session cookie travels: named `auth`, for
/// every path, for twenty-four hours, hidden from scripts, and over secure
/// connections only where the service runs in production.
pub fn cookie_policy(production: bool) -> (r: CookiePolicy)
    ensures
        r.name@ == "auth"@,
        r.path@ == "/"@,
        r.max_age == SESSION_MAX_AGE,
        r.http_only,
        r.secure == production,
{
    CookiePolicy {
        name: "auth".to_owned(),
        path: "/".to_owned(),
        max_age: SESSION_MAX_AGE,
        http_only: true,
        secure: production,
    }
}

} // verus!
