use vstd::prelude::*;
use crate::error::{backend_error_of, BackendError, RepoError};
use crate::feature::post::dto::PostDto;
use crate::repo::post::{Post, PostId, UpdateParams};

verus! {

/// Change one of the caller's posts.
pub struct ExecuteParams {
    pub id: PostId,
    pub user_id: u128,
    pub title: Option<String>,
    pub body: Option<String>,
    pub tags: Option<Vec<String>>,
}

/// The repository write: the requested change, on behalf of the caller.
pub fn request(params: ExecuteParams) -> (update: UpdateParams)
    ensures
        update.id == params.id,
        update.author_id == params.user_id,
        update.title == params.title,
        update.body == params.body,
        update.tags == params.tags,
{
    UpdateParams {
        id: params.id,
        author_id: params.user_id,
        title: params.title,
        body: params.body,
        tags: params.tags,
    }
}

/// The answer: a repository error passes through; otherwise the updated post.
pub fn respond(outcome: Result<Post, RepoError>) -> (res: Result<PostDto, BackendError>)
    ensures
        match outcome {
            Err(e) => res == Err::<PostDto, BackendError>(backend_error_of(e)),
            Ok(post) => res matches Ok(dto) && dto@ == post@,
        },
{
    match outcome {
        Err(e) => Err(BackendError::from(e)),
        Ok(post) => Ok(PostDto::from(post)),
    }
}

} // verus!
