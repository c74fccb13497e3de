use vstd::prelude::*;
use crate::error::{backend_error_of, BackendError, RepoError};
use crate::feature::post::dto::{post_dtos, PostDto};
use crate::repo::post::{ListParams, Post};

verus! {

/// List a page of the caller's posts.
pub struct ExecuteParams {
    pub user_id: u128,
    pub limit: u32,
    pub offset: u32,
}

/// The listing's body.
pub struct ExecuteOutput {
    pub items: Vec<PostDto>,
}

/// The repository read: the caller's posts, with the requested page.
pub fn request(params: &ExecuteParams) -> (list: ListParams)
    ensures
        list.author_id == Some(params.user_id),
        list.limit == params.limit,
        list.offset == params.offset,
{
    ListParams { author_id: Some(params.user_id), limit: params.limit, offset: params.offset }
}

/// The answer: a repository error passes through; otherwise every listed
/// post, in order.
pub fn respond(outcome: Result<Vec<Post>, RepoError>) -> (res: Result<ExecuteOutput, BackendError>)
    ensures
        match outcome {
            Err(e) => res == Err::<ExecuteOutput, BackendError>(backend_error_of(e)),
            Ok(posts) => res matches Ok(out) && {
                &&& out.items@.len() == posts@.len()
                &&& forall|i: int| 0 <= i < posts@.len() ==> #[trigger] out.items@[i]@ == posts@[i]@
            },
        },
{
    match outcome {
        Err(e) => Err(BackendError::from(e)),
        Ok(posts) => Ok(ExecuteOutput { items: post_dtos(posts) }),
    }
}

} // verus!
