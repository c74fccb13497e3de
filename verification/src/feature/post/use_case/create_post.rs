use vstd::prelude::*;
use crate::error::{backend_error_of, BackendError, RepoError};
use crate::feature::post::dto::PostDto;
use crate::repo::post::{texts, CreateParams, Post};

verus! {

/// Publish a post as the caller.
pub struct ExecuteParams {
    pub user_id: u128,
    pub title: String,
    pub body: String,
    pub tags: Vec<String>,
}

/// The repository write: a post authored by the caller with the given texts.
pub fn request(params: ExecuteParams) -> (create: CreateParams)
    ensures
        create.author_id == params.user_id,
        create.title@ == params.title@,
        create.body@ == params.body@,
        texts(create.tags@) == texts(params.tags@),
{
    CreateParams {
        author_id: params.user_id,
        title: params.title,
        body: params.body,
        tags: params.tags,
    }
}

/// The answer: a repository error passes through; otherwise the new post.
pub fn respond(outcome: Result<Post, RepoError>) -> (res: Result<PostDto, BackendError>)
    ensures
        match outcome {
            Err(e) => res == Err::<PostDto, BackendError>(backend_error_of(e)),
            Ok(post) => res matches Ok(dto) && dto@ == post@,
        },
{
    match outcome {
        Err(e) => Err(BackendError::from(e)),
        Ok(post) => Ok(PostDto::from(post)),
    }
}

} // verus!
