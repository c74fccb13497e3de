use vstd::prelude::*;
use crate::error::{backend_error_of, BackendError, RepoError};
use crate::feature::user::dto::UserDto;
use crate::repo::user::{UpsertParams, User};

verus! {

/// Who the caller is: the caller's user row, created on first sight.
pub struct ExecuteParams {
    pub user_id: u128,
    pub email: String,
}

/// The repository write: insert the caller if missing.
pub fn request(params: ExecuteParams) -> (upsert: UpsertParams)
    ensures
        upsert.id == params.user_id,
        upsert.email@ == params.email@,
{
    UpsertParams { id: params.user_id, email: params.email }
}

/// The answer: a repository error passes through; otherwise the stored user.
pub fn respond(outcome: Result<User, RepoError>) -> (res: Result<UserDto, BackendError>)
    ensures
        match outcome {
            Err(e) => res == Err::<UserDto, BackendError>(backend_error_of(e)),
            Ok(user) => res matches Ok(dto) && dto@ == user@,
        },
{
    match outcome {
        Err(e) => Err(BackendError::from(e)),
        Ok(user) => Ok(UserDto::from(user)),
    }
}

} // verus!
