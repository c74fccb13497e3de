use vstd::prelude::*;
use crate::error::{backend_error_of, BackendError, RepoError};
use crate::feature::post::dto::PostDto;
use crate::repo::post::{GetParams, Post, PostId};

verus! {

/// Read one of the caller's posts.
pub struct ExecuteParams {
    pub id: PostId,
    pub user_id: u128,
}

/// The repository read: the post with the requested id.
pub fn request(params: &ExecuteParams) -> (get: GetParams)
    ensures
        get.id == params.id,
{
    GetParams { id: params.id }
}

/// The answer: a repository error passes through; a post of another author
/// is `NotFound`, exactly as if it did not exist; otherwise the post.
pub fn respond(params: &ExecuteParams, outcome: Result<Post, RepoError>) -> (res: Result<PostDto, BackendError>)
    ensures
        match outcome {
            Err(e) => res == Err::<PostDto, BackendError>(backend_error_of(e)),
            Ok(post) => if post.author_id != params.user_id {
                res matches Err(BackendError::NotFound)
            } else {
                res matches Ok(dto) && dto@ == post@
            },
        },
{
    match outcome {
        Err(e) => Err(BackendError::from(e)),
        Ok(post) => {
            if post.author_id != params.user_id {
                return Err(BackendError::NotFound);
            }
            Ok(PostDto::from(post))
        },
    }
}

} // verus!
