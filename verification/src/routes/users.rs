//! Looking up users.

use vstd::prelude::*;
use crate::errors::{resource_failure, ServiceError, StoreError};
use crate::models::{principal_of, LoggedUser, User};
use crate::store::loaded;

verus! {

/// What is said of a request that names a user who does not exist.
pub open spec fn no_such_user() -> Seq<char> {
    "Invalid user identifiers!"@
}

/// Answers a request for one user. `user` is what the store gave under the
/// identifier that was asked for. A read that failed is answered as
/// `ServiceError::in_resource` says. Otherwise the answer is what of the
/// account may be shown: its identifier, name and address, and neither the
/// password hash nor the activation flag.
pub fn get_user(user: Result<User, StoreError>) -> (r: Result<LoggedUser, ServiceError>)
    ensures
        match user {
            Ok(found) => r matches Ok(shown) && shown@ == principal_of(found@),
            Err(error) => r matches Err(refusal) && refusal@ == resource_failure(
                error,
                no_such_user(),
            ),
        },
{
    match loaded(user, "Invalid user identifiers!") {
        Ok(found) => Ok(LoggedUser::from(found)),
        Err(refusal) => Err(refusal),
    }
}

} // verus!
