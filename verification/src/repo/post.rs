use vstd::prelude::*;

verus! {

/// A post's id: the database's serial key.
pub type PostId = i64;

/// An author's id: the value of the author's UUID.
pub type AuthorId = u128;

/// The texts of a list of strings.
pub open spec fn texts(v: Seq<String>) -> Seq<Seq<char>> {
    v.map_values(|s: String| s@)
}

/// A stored post. `created_at` is the creation instant in nanoseconds since
/// the Unix epoch (UTC).
pub struct Post {
    pub id: PostId,
    pub author_id: AuthorId,
    pub title: String,
    pub body: String,
    pub tags: Vec<String>,
    pub created_at: i128,
}

/// A post with its texts taken by their views.
pub struct PostView {
    pub id: PostId,
    pub author_id: AuthorId,
    pub title: Seq<char>,
    pub body: Seq<char>,
    pub tags: Seq<Seq<char>>,
    pub created_at: i128,
}

impl View for Post {
    type V = PostView;

    open spec fn view(&self) -> PostView {
        PostView {
            id: self.id,
            author_id: self.author_id,
            title: self.title@,
            body: self.body@,
            tags: texts(self.tags@),
            created_at: self.created_at,
        }
    }
}

/// Which posts to list: those of one author (or all), newest first, a page
/// of `limit` posts (0 meaning the default page size) after `offset`.
pub struct ListParams {
    pub author_id: Option<AuthorId>,
    pub limit: u32,
    pub offset: u32,
}

impl Default for ListParams {
    fn default() -> (p: ListParams)
        ensures
            p.author_id is None,
            p.limit == 0,
            p.offset == 0,
    {
        ListParams { author_id: None, limit: 0, offset: 0 }
    }
}

/// Which post to read.
pub struct GetParams {
    pub id: PostId,
}

/// A new post.
pub struct CreateParams {
    pub author_id: AuthorId,
    pub title: String,
    pub body: String,
    pub tags: Vec<String>,
}

/// A change to a post that `author_id` owns; each field that is present
/// replaces the stored one.
pub struct UpdateParams {
    pub id: PostId,
    pub author_id: AuthorId,
    pub title: Option<String>,
    pub body: Option<String>,
    pub tags: Option<Vec<String>>,
}

/// Which post to delete, on behalf of which author.
pub struct DeleteParams {
    pub id: PostId,
    pub author_id: AuthorId,
}

} // verus!
