//! The outcomes that a refused request can have.

use vstd::prelude::*;

verus! {

/// Why a request was refused.
#[derive(Debug, PartialEq, Eq)]
pub enum ServiceError {
    /// A fault of the service itself: hashing failed, or the store did.
    InternalServerError,
    /// The request names something that cannot be acted on.
    BadRequest(String),
    /// No valid session, a failed credential check, or an invitation that is
    /// spent or out of date. The caller is never told which.
    Unauthorized,
    /// The principal is known but may not do this to this resource.
    Forbidden,
}

/// A `ServiceError` with its message as a sequence of characters.
pub enum ServiceErrorView {
    InternalServerError,
    BadRequest(Seq<char>),
    Unauthorized,
    Forbidden,
}

impl View for ServiceError {
    type V = ServiceErrorView;

    open spec fn view(&self) -> ServiceErrorView {
        match self {
            ServiceError::InternalServerError => ServiceErrorView::InternalServerError,
            ServiceError::BadRequest(message) => ServiceErrorView::BadRequest(message@),
            ServiceError::Unauthorized => ServiceErrorView::Unauthorized,
            ServiceError::Forbidden => ServiceErrorView::Forbidden,
        }
    }
}

impl Clone for ServiceError {
    fn clone(&self) -> (r: Self)
        ensures
            r == *self,
    {
        match self {
            ServiceError::InternalServerError => ServiceError::InternalServerError,
            ServiceError::BadRequest(message) => ServiceError::BadRequest(message.clone()),
            ServiceError::Unauthorized => ServiceError::Unauthorized,
            ServiceError::Forbidden => ServiceError::Forbidden,
        }
    }
}

/// How a store operation failed, as far as the service tells failures apart.
#[derive(Debug, PartialEq, Eq, Clone, Copy)]
pub enum StoreError {
    /// The row that was asked for does not exist.
    NotFound,
    /// Anything else: the connection, a constraint, a malformed row.
    Fault,
}

/// What a failed read comes to while someone is signing in or confirming a
/// registration: a row that is missing is no reason to say more than
/// `Unauthorized`.
pub open spec fn auth_failure(error: StoreError) -> ServiceErrorView {
    match error {
        StoreError::NotFound => ServiceErrorView::Unauthorized,
        StoreError::Fault => ServiceErrorView::InternalServerError,
    }
}

/// What a failed read comes to while a note, a group or a user is asked
/// for: a row that is missing makes the request a bad one, with `message`.
pub open spec fn resource_failure(error: StoreError, message: Seq<char>) -> ServiceErrorView {
    match error {
        StoreError::NotFound => ServiceErrorView::BadRequest(message),
        StoreError::Fault => ServiceErrorView::InternalServerError,
    }
}

/// The view of a result whose error is a `ServiceError`.
pub open spec fn outcome_view<T: View>(outcome: Result<T, ServiceError>) -> Result<
    T::V,
    ServiceErrorView,
> {
    match outcome {
        Ok(value) => Ok(value@),
        Err(error) => Err(error@),
    }
}

impl ServiceError {
    /// The refusal that a failed read comes to during sign-in or
    /// confirmation.
    pub fn in_auth(error: StoreError) -> (r: Self)
        ensures
            r@ == auth_failure(error),
    {
        match error {
            StoreError::NotFound => ServiceError::Unauthorized,
            StoreError::Fault => ServiceError::InternalServerError,
        }
    }

    /// The refusal that a failed read of a note, a group or a user comes to.
    pub fn in_resource(error: StoreError, message: &str) -> (r: Self)
        ensures
            r@ == resource_failure(error, message@),
    {
        match error {
            StoreError::NotFound => ServiceError::BadRequest(message.to_owned()),
            StoreError::Fault => ServiceError::InternalServerError,
        }
    }
}

} // verus!
