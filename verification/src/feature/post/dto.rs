use vstd::prelude::*;
use crate::repo::post::{texts, AuthorId, Post, PostId, PostView};

verus! {

/// A post as the API returns it.
pub struct PostDto {
    pub id: PostId,
    pub author_id: AuthorId,
    pub title: String,
    pub body: String,
    pub tags: Vec<String>,
    pub created_at: i128,
}

impl View for PostDto {
    type V = PostView;

    open spec fn view(&self) -> PostView {
        PostView {
            id: self.id,
            author_id: self.author_id,
            title: self.title@,
            body: self.body@,
            tags: texts(self.tags@),
            created_at: self.created_at,
        }
    }
}

/// The DTO of a post: the same fields.
pub open spec fn post_dto_of(post: Post) -> PostDto {
    PostDto {
        id: post.id,
        author_id: post.author_id,
        title: post.title,
        body: post.body,
        tags: post.tags,
        created_at: post.created_at,
    }
}

impl From<Post> for PostDto {
    fn from(post: Post) -> (dto: PostDto) {
        PostDto {
            id: post.id,
            author_id: post.author_id,
            title: post.title,
            body: post.body,
            tags: post.tags,
            created_at: post.created_at,
        }
    }
}

impl vstd::std_specs::convert::FromSpecImpl<Post> for PostDto {
    open spec fn obeys_from_spec() -> bool {
        true
    }

    open spec fn from_spec(post: Post) -> PostDto {
        post_dto_of(post)
    }
}

/// The DTOs of a list of posts, in order.
pub fn post_dtos(posts: Vec<Post>) -> (dtos: Vec<PostDto>)
    ensures
        dtos@.len() == posts@.len(),
        forall|i: int| 0 <= i < posts@.len() ==> #[trigger] dtos@[i]@ == posts@[i]@,
{
    broadcast use vstd::std_specs::vec::axiom_spec_into_iter;
    let ghost source = posts@;
    let mut dtos: Vec<PostDto> = Vec::new();
    for post in it: posts.into_iter()
        invariant
            it.seq() == source,
            dtos@.len() == it.index(),
            forall|i: int| 0 <= i < it.index() ==> #[trigger] dtos@[i]@ == source[i]@,
    {
        dtos.push(PostDto::from(post));
    }
    dtos
}

} // verus!
