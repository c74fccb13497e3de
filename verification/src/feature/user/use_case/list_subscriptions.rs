use vstd::prelude::*;
use crate::error::{backend_error_of, BackendError, RepoError};
use crate::feature::user::dto::{user_dtos, UserDto};
use crate::repo::user::User;

verus! {

/// List the authors a user is subscribed to.
pub struct ExecuteParams {
    pub subscriber_id: u128,
}

/// The listing's body.
pub struct ExecuteOutput {
    pub items: Vec<UserDto>,
}

/// The first repository read: the subscriber's own row.
pub fn lookup_request(params: &ExecuteParams) -> (id: u128)
    ensures
        id == params.subscriber_id,
{
    params.subscriber_id
}

/// After the lookup: an unknown subscriber is an error (`NotFound` when the
/// user does not exist), never an empty list; otherwise the id whose authors
/// are listed next.
pub fn after_lookup(params: &ExecuteParams, outcome: Result<(), RepoError>) -> (res: Result<u128, BackendError>)
    ensures
        match outcome {
            Err(e) => res == Err::<u128, BackendError>(backend_error_of(e)),
            Ok(()) => res == Ok::<u128, BackendError>(params.subscriber_id),
        },
{
    match outcome {
        Err(e) => Err(BackendError::from(e)),
        Ok(()) => Ok(params.subscriber_id),
    }
}

/// The answer: a repository error passes through; otherwise every author,
/// in the repository's order.
pub fn respond(outcome: Result<Vec<User>, RepoError>) -> (res: Result<ExecuteOutput, BackendError>)
    ensures
        match outcome {
            Err(e) => res == Err::<ExecuteOutput, BackendError>(backend_error_of(e)),
            Ok(users) => res matches Ok(out) && {
                &&& out.items@.len() == users@.len()
                &&& forall|i: int| 0 <= i < users@.len() ==> #[trigger] out.items@[i]@ == users@[i]@
            },
        },
{
    match outcome {
        Err(e) => Err(BackendError::from(e)),
        Ok(users) => Ok(ExecuteOutput { items: user_dtos(users) }),
    }
}

} // verus!
