use vstd::prelude::*;
use crate::error::{backend_error_of, BackendError, RepoError};
use crate::repo::post::{DeleteParams, PostId};

verus! {

/// Delete one of the caller's posts.
pub struct ExecuteParams {
    pub id: PostId,
    pub user_id: u128,
}

/// The repository write: delete the post if the caller owns it.
pub fn request(params: &ExecuteParams) -> (delete: DeleteParams)
    ensures
        delete.id == params.id,
        delete.author_id == params.user_id,
{
    DeleteParams { id: params.id, author_id: params.user_id }
}

/// The answer: a repository error passes through; otherwise nothing.
pub fn respond(outcome: Result<(), RepoError>) -> (res: Result<(), BackendError>)
    ensures
        match outcome {
            Err(e) => res == Err::<(), BackendError>(backend_error_of(e)),
            Ok(()) => res is Ok,
        },
{
    match outcome {
        Err(e) => Err(BackendError::from(e)),
        Ok(()) => Ok(()),
    }
}

} // verus!
