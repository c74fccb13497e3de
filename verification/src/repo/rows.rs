//! How the rows that the database returns become the repositories' answers.
//! The queries themselves run outside this library; these functions decide
//! what their results mean.

use vstd::prelude::*;
use crate::error::RepoError;
use crate::ids::{parse_uuid_str, uuid_hyphenated, uuid_parse_str, uuid_to_string};
use crate::repo::post::{texts, AuthorId, CreateParams, Post, PostId, PostView, UpdateParams};
use crate::repo::user::User;

verus! {

/// The page size of a listing whose limit is 0.
pub const DEFAULT_LIST_LIMIT: i64 = 50;

/// A `posts` row, the author id read as a UUID.
pub struct PostRow {
    pub id: PostId,
    pub author_id: AuthorId,
    pub title: String,
    pub body: String,
    pub created_at: i128,
}

/// A `posts` row whose author id is stored as text.
pub struct TextPostRow {
    pub id: PostId,
    pub author_id: String,
    pub title: String,
    pub body: String,
    pub created_at: i128,
}

/// One tag of one post, as the tag query returns it (ordered by name).
pub struct TagRow {
    pub post_id: PostId,
    pub name: String,
}

/// A `users` row whose id is stored as text.
pub struct TextUserRow {
    pub id: String,
    pub email: String,
}

/// A repository error that carries the text of an underlying failure.
pub fn err(message: String) -> (e: RepoError)
    ensures
        e matches RepoError::Unknown(m) && m@ == message@,
{
    RepoError::Unknown(message)
}

/// The number of posts a listing asks the database for.
pub open spec fn list_limit(limit: u32) -> i64 {
    if limit == 0 {
        DEFAULT_LIST_LIMIT
    } else {
        limit as i64
    }
}

/// The `LIMIT` of a listing: the requested limit, or 50 when it is 0.
pub fn effective_limit(limit: u32) -> (n: i64)
    ensures
        n == list_limit(limit),
        limit == 0 ==> n == 50,
        limit > 0 ==> n == limit,
        1 <= n <= u32::MAX,
{
    if limit == 0 {
        DEFAULT_LIST_LIMIT
    } else {
        limit as i64
    }
}

/// The `OFFSET` of a listing.
pub fn effective_offset(offset: u32) -> (n: i64)
    ensures
        n == offset,
{
    offset as i64
}

/// Whether the tags of a set of posts have to be queried at all: not when
/// the set is empty.
pub fn needs_tag_query(post_ids: &Vec<PostId>) -> (b: bool)
    ensures
        b == (post_ids@.len() > 0),
{
    post_ids.len() > 0
}

/// The names of the tags of post `id`, in the order of the tag rows.
pub open spec fn tag_names(rows: Seq<TagRow>, id: PostId) -> Seq<Seq<char>>
    decreases rows.len(),
{
    if rows.len() == 0 {
        Seq::empty()
    } else {
        let earlier = tag_names(rows.drop_last(), id);
        if rows.last().post_id == id {
            earlier.push(rows.last().name@)
        } else {
            earlier
        }
    }
}

/// The names of all the tag rows of post `id`, in the rows' order.
pub open spec fn names_of_rows_for(rows: Seq<TagRow>, id: PostId) -> Seq<Seq<char>> {
    rows.filter(|r: TagRow| r.post_id == id).map_values(|r: TagRow| r.name@)
}

/// A post's tags are exactly the names of all of its tag rows, in the rows'
/// order: none is dropped, none is added, none comes from another post.
pub proof fn lemma_tag_names_are_the_posts_rows(rows: Seq<TagRow>, id: PostId)
    ensures
        tag_names(rows, id) == names_of_rows_for(rows, id),
    decreases rows.len(),
{
    reveal(Seq::filter);
    if rows.len() > 0 {
        lemma_tag_names_are_the_posts_rows(rows.drop_last(), id);
        let p = |r: TagRow| r.post_id == id;
        let f = |r: TagRow| r.name@;
        assert(rows.filter(p) == if p(rows.last()) {
            rows.drop_last().filter(p).push(rows.last())
        } else {
            rows.drop_last().filter(p)
        });
        if p(rows.last()) {
            assert(rows.drop_last().filter(p).push(rows.last()).map_values(f) =~= rows.drop_last().filter(
                p,
            ).map_values(f).push(rows.last().name@));
        }
    }
}

/// The names of the tags of post `id`, in the order of the tag rows.
pub fn tags_for(rows: &Vec<TagRow>, id: PostId) -> (names: Vec<String>)
    ensures
        texts(names@) == tag_names(rows@, id),
        texts(names@) == names_of_rows_for(rows@, id),
{
    proof {
        lemma_tag_names_are_the_posts_rows(rows@, id);
    }
    let mut names: Vec<String> = Vec::new();
    let mut i: usize = 0;
    while i < rows.len()
        invariant
            i <= rows@.len(),
            texts(names@) == tag_names(rows@.take(i as int), id),
        decreases rows@.len() - i,
    {
        assert(rows@.take(i + 1).drop_last() =~= rows@.take(i as int));
        if rows[i].post_id == id {
            names.push(rows[i].name.clone());
        }
        assert(texts(names@) =~= tag_names(rows@.take(i + 1), id));
        i = i + 1;
    }
    assert(rows@.take(rows@.len() as int) =~= rows@);
    names
}

/// Whether row `i` repeats the post id of an earlier row.
pub open spec fn seen_before(rows: Seq<PostRow>, i: int) -> bool {
    exists|j: int| 0 <= j < i && #[trigger] rows[j].id == rows[i].id
}

/// The post that row `i` of a listing becomes: its columns, and the tags of
/// its id; a row that repeats an earlier id gets no tags, since each id's
/// tags are handed out once.
pub open spec fn listed_post(rows: Seq<PostRow>, tag_rows: Seq<TagRow>, i: int) -> PostView {
    PostView {
        id: rows[i].id,
        author_id: rows[i].author_id,
        title: rows[i].title@,
        body: rows[i].body@,
        tags: if seen_before(rows, i) {
            Seq::empty()
        } else {
            tag_names(tag_rows, rows[i].id)
        },
        created_at: rows[i].created_at,
    }
}

fn id_seen(rows: &Vec<PostRow>, i: usize) -> (b: bool)
    requires
        i < rows@.len(),
    ensures
        b == seen_before(rows@, i as int),
{
    let mut j: usize = 0;
    while j < i
        invariant
            j <= i < rows@.len(),
            forall|k: int| 0 <= k < j ==> rows@[k].id != rows@[i as int].id,
        decreases i - j,
    {
        if rows[j].id == rows[i].id {
            return true;
        }
        j = j + 1;
    }
    false
}

/// Whether post `i` of a listing is row `i` as it stands: its id, author,
/// title, body and creation time are the row's columns; the first row of an
/// id carries all the tags of that id, a repeated one none.
pub open spec fn listed_post_keeps_row(rows: Seq<PostRow>, tag_rows: Seq<TagRow>, i: int) -> bool {
    let p = listed_post(rows, tag_rows, i);
    &&& p.id == rows[i].id
    &&& p.author_id == rows[i].author_id
    &&& p.title == rows[i].title@
    &&& p.body == rows[i].body@
    &&& p.created_at == rows[i].created_at
    &&& (forall|j: int| 0 <= j < i ==> rows[j].id != rows[i].id) ==> p.tags == names_of_rows_for(tag_rows, rows[i].id)
    &&& (exists|j: int| 0 <= j < i && rows[j].id == rows[i].id) ==> p.tags.len() == 0
}

/// Each listed post is its row: the columns unchanged, the tags all those of
/// its id (or none for a repeated id).
pub proof fn lemma_listed_post_keeps_row(rows: Seq<PostRow>, tag_rows: Seq<TagRow>, i: int)
    requires
        0 <= i < rows.len(),
    ensures
        listed_post_keeps_row(rows, tag_rows, i),
{
    lemma_tag_names_are_the_posts_rows(tag_rows, rows[i].id);
    if exists|j: int| 0 <= j < i && rows[j].id == rows[i].id {
        let j = choose|j: int| 0 <= j < i && rows[j].id == rows[i].id;
        assert(seen_before(rows, i));
    }
}

/// The posts of a listing: one per row, in the rows' order, each with its
/// tags from the tag rows.
pub fn assemble_posts(rows: &Vec<PostRow>, tag_rows: &Vec<TagRow>) -> (posts: Vec<Post>)
    ensures
        posts@.len() == rows@.len(),
        forall|i: int| 0 <= i < rows@.len() ==> #[trigger] posts@[i]@ == listed_post(rows@, tag_rows@, i),
        forall|i: int| 0 <= i < rows@.len() ==> {
            &&& (#[trigger] posts@[i]).id == rows@[i].id
            &&& posts@[i].author_id == rows@[i].author_id
            &&& posts@[i].title@ == rows@[i].title@
            &&& posts@[i].body@ == rows@[i].body@
            &&& posts@[i].created_at == rows@[i].created_at
            &&& (forall|j: int| 0 <= j < i ==> rows@[j].id != rows@[i].id) ==> texts(posts@[i].tags@)
                == names_of_rows_for(tag_rows@, rows@[i].id)
            &&& (exists|j: int| 0 <= j < i && rows@[j].id == rows@[i].id) ==> posts@[i].tags@.len() == 0
        },
{
    proof {
        assert forall|i: int| 0 <= i < rows@.len() implies #[trigger] listed_post_keeps_row(rows@, tag_rows@, i) by {
            lemma_listed_post_keeps_row(rows@, tag_rows@, i);
        }
    }
    let mut posts: Vec<Post> = Vec::new();
    let mut i: usize = 0;
    while i < rows.len()
        invariant
            i <= rows@.len(),
            posts@.len() == i,
            forall|k: int| 0 <= k < i ==> #[trigger] posts@[k]@ == listed_post(rows@, tag_rows@, k),
        decreases rows@.len() - i,
    {
        let row = &rows[i];
        let tags = if id_seen(rows, i) {
            Vec::new()
        } else {
            tags_for(tag_rows, row.id)
        };
        let post = Post {
            id: row.id,
            author_id: row.author_id,
            title: row.title.clone(),
            body: row.body.clone(),
            tags,
            created_at: row.created_at,
        };
        proof {
            if seen_before(rows@, i as int) {
                assert(texts(post.tags@) =~= Seq::<Seq<char>>::empty());
            }
        }
        posts.push(post);
        i = i + 1;
    }
    proof {
        assert forall|i: int| 0 <= i < rows@.len() implies {
            &&& (#[trigger] posts@[i]).id == rows@[i].id
            &&& posts@[i].author_id == rows@[i].author_id
            &&& posts@[i].title@ == rows@[i].title@
            &&& posts@[i].body@ == rows@[i].body@
            &&& posts@[i].created_at == rows@[i].created_at
            &&& (forall|j: int| 0 <= j < i ==> rows@[j].id != rows@[i].id) ==> texts(posts@[i].tags@)
                == names_of_rows_for(tag_rows@, rows@[i].id)
            &&& (exists|j: int| 0 <= j < i && rows@[j].id == rows@[i].id) ==> posts@[i].tags@.len() == 0
        } by {
            assert(posts@[i]@ == listed_post(rows@, tag_rows@, i));
            assert(listed_post_keeps_row(rows@, tag_rows@, i));
            assert(texts(posts@[i].tags@).len() == posts@[i].tags@.len());
        }
    }
    posts
}

/// The author id of a text row, parsed as a UUID; a text that is no UUID is
/// an unknown error carrying the parser's message.
pub fn parse_author(text: &str) -> (res: Result<AuthorId, RepoError>)
    ensures
        match uuid_parse_str(text@) {
            Ok(id) => res == Ok::<AuthorId, RepoError>(id),
            Err(msg) => res matches Err(RepoError::Unknown(m)) && m@ == msg,
        },
{
    match parse_uuid_str(text) {
        Ok(id) => Ok(id),
        Err(msg) => Err(err(msg)),
    }
}

/// The text under which a store that keeps UUIDs as text (MariaDB) stores
/// one: the hyphenated form, which reads back as the same UUID.
pub fn uuid_text(id: u128) -> (text: String)
    ensures
        text@ == uuid_hyphenated(id),
        uuid_parse_str(text@) == Ok::<u128, Seq<char>>(id),
{
    uuid_to_string(id)
}

/// Whether every text row's author id is a UUID.
pub open spec fn all_authors_parse(rows: Seq<TextPostRow>, n: int) -> bool {
    forall|k: int| 0 <= k < n ==> (#[trigger] uuid_parse_str(rows[k].author_id@)) is Ok
}

/// The row that a text row becomes once its author id is parsed.
pub open spec fn parsed_row_matches(row: PostRow, text: TextPostRow) -> bool {
    &&& row.id == text.id
    &&& uuid_parse_str(text.author_id@) == Ok::<u128, Seq<char>>(row.author_id)
    &&& row.title@ == text.title@
    &&& row.body@ == text.body@
    &&& row.created_at == text.created_at
}

/// The rows with their author ids parsed; the first row whose author id is
/// no UUID makes the whole read fail with that row's parse error.
pub fn parse_post_rows(rows: &Vec<TextPostRow>) -> (res: Result<Vec<PostRow>, RepoError>)
    ensures
        match res {
            Ok(parsed) => {
                &&& all_authors_parse(rows@, rows@.len() as int)
                &&& parsed@.len() == rows@.len()
                &&& forall|i: int| 0 <= i < rows@.len() ==> parsed_row_matches(#[trigger] parsed@[i], rows@[i])
            },
            Err(e) => exists|k: int| {
                &&& 0 <= k < rows@.len()
                &&& all_authors_parse(rows@, k)
                &&& #[trigger] uuid_parse_str(rows@[k].author_id@) matches Err(msg)
                &&& e matches RepoError::Unknown(m) && m@ == msg
            },
        },
{
    let mut parsed: Vec<PostRow> = Vec::new();
    let mut i: usize = 0;
    while i < rows.len()
        invariant
            i <= rows@.len(),
            parsed@.len() == i,
            all_authors_parse(rows@, i as int),
            forall|k: int| 0 <= k < i ==> parsed_row_matches(#[trigger] parsed@[k], rows@[k]),
        decreases rows@.len() - i,
    {
        let row = &rows[i];
        match parse_author(row.author_id.as_str()) {
            Ok(author_id) => {
                parsed.push(PostRow {
                    id: row.id,
                    author_id,
                    title: row.title.clone(),
                    body: row.body.clone(),
                    created_at: row.created_at,
                });
            },
            Err(e) => {
                assert(uuid_parse_str(rows@[i as int].author_id@) is Err);
                return Err(e);
            },
        }
        i = i + 1;
    }
    Ok(parsed)
}

/// A store that keeps author ids as text lists the same posts as one that
/// keeps them as UUIDs: when each text row holds the same post as the
/// matching UUID row, its author id stored as text that reads back as the
/// same UUID (as `uuid_text` writes it), every author id parses, so the text
/// rows' read succeeds, and the rows it gives assemble, with the same tag
/// rows, into the same posts in the same order.
pub proof fn lemma_listings_agree(
    rows: Seq<PostRow>,
    text_rows: Seq<TextPostRow>,
    parsed: Seq<PostRow>,
    tag_rows: Seq<TagRow>,
)
    requires
        text_rows.len() == rows.len(),
        forall|i: int| 0 <= i < rows.len() ==> parsed_row_matches(#[trigger] rows[i], text_rows[i]),
        parsed.len() == text_rows.len(),
        forall|i: int| 0 <= i < text_rows.len() ==> parsed_row_matches(#[trigger] parsed[i], text_rows[i]),
    ensures
        all_authors_parse(text_rows, text_rows.len() as int),
        forall|i: int| 0 <= i < rows.len() ==> #[trigger] listed_post(parsed, tag_rows, i) == listed_post(rows, tag_rows, i),
{
    assert forall|k: int| 0 <= k < text_rows.len() implies (#[trigger] uuid_parse_str(text_rows[k].author_id@)) is Ok by {
        assert(parsed_row_matches(rows[k], text_rows[k]));
    }
    assert forall|i: int| 0 <= i < rows.len() implies #[trigger] listed_post(parsed, tag_rows, i) == listed_post(rows, tag_rows, i) by {
        assert(parsed_row_matches(rows[i], text_rows[i]));
        assert(parsed_row_matches(parsed[i], text_rows[i]));
        assert(seen_before(parsed, i) == seen_before(rows, i)) by {
            if seen_before(parsed, i) {
                let j = choose|j: int| 0 <= j < i && #[trigger] parsed[j].id == parsed[i].id;
                assert(parsed_row_matches(rows[j], text_rows[j]));
                assert(parsed_row_matches(parsed[j], text_rows[j]));
                assert(rows[j].id == rows[i].id);
            }
            if seen_before(rows, i) {
                let j = choose|j: int| 0 <= j < i && #[trigger] rows[j].id == rows[i].id;
                assert(parsed_row_matches(rows[j], text_rows[j]));
                assert(parsed_row_matches(parsed[j], text_rows[j]));
                assert(parsed[j].id == parsed[i].id);
            }
        }
    }
}

/// The post a single-post read returns: none found is `NotFound`, otherwise
/// the row with its tags.
pub fn found_post(row: Option<PostRow>, tag_rows: &Vec<TagRow>) -> (res: Result<Post, RepoError>)
    ensures
        match row {
            None => res matches Err(RepoError::NotFound),
            Some(r) => res matches Ok(p) && p@ == (PostView {
                id: r.id,
                author_id: r.author_id,
                title: r.title@,
                body: r.body@,
                tags: tag_names(tag_rows@, r.id),
                created_at: r.created_at,
            }),
        },
{
    match row {
        None => Err(RepoError::NotFound),
        Some(r) => {
            let tags = tags_for(tag_rows, r.id);
            Ok(Post {
                id: r.id,
                author_id: r.author_id,
                title: r.title,
                body: r.body,
                tags,
                created_at: r.created_at,
            })
        },
    }
}

/// The post id that an insert's `last_insert_id` stands for (the value taken
/// as a signed 64-bit number).
pub fn post_id_of_insert(last_insert_id: u64) -> (id: PostId)
    ensures
        last_insert_id <= i64::MAX ==> id == last_insert_id,
        last_insert_id > i64::MAX ==> id == last_insert_id - 0x1_0000_0000_0000_0000,
{
    if last_insert_id <= i64::MAX as u64 {
        last_insert_id as i64
    } else {
        let rest: u64 = last_insert_id - (i64::MAX as u64) - 1;
        i64::MIN + (rest as i64)
    }
}

/// The post that a create returns: the new post's fields as given, with the
/// id and creation time the database assigned.
pub fn created_post(params: CreateParams, id: PostId, created_at: i128) -> (post: Post)
    ensures
        post@ == (PostView {
            id,
            author_id: params.author_id,
            title: params.title@,
            body: params.body@,
            tags: texts(params.tags@),
            created_at,
        }),
{
    Post {
        id,
        author_id: params.author_id,
        title: params.title,
        body: params.body,
        tags: params.tags,
        created_at,
    }
}

/// What an update writes once the owned post has been read: the merged title
/// and body, the new tags if any were given, and what it keeps.
pub struct UpdatePlan {
    pub id: PostId,
    pub author_id: AuthorId,
    pub title: String,
    pub body: String,
    pub new_tags: Option<Vec<String>>,
    pub created_at: i128,
}

/// Whether a stored row is the post that an update asks for, owned by the
/// author on whose behalf it is made.
pub open spec fn is_owned_target(params: UpdateParams, row: PostRow) -> bool {
    row.id == params.id && row.author_id == params.author_id
}

/// The title an update leaves: the given one, or the stored one.
pub open spec fn planned_title(params: UpdateParams, row: PostRow) -> Seq<char> {
    match params.title {
        Some(t) => t@,
        None => row.title@,
    }
}

/// The body an update leaves: the given one, or the stored one.
pub open spec fn planned_body(params: UpdateParams, row: PostRow) -> Seq<char> {
    match params.body {
        Some(b) => b@,
        None => row.body@,
    }
}

/// The tags a post has after an update: the given ones, or the stored ones.
pub open spec fn tags_after_update(params: UpdateParams, stored_tags: Seq<Seq<char>>) -> Seq<Seq<char>> {
    match params.tags {
        Some(t) => texts(t@),
        None => stored_tags,
    }
}

/// The `posts` row once an update of `row` has been written.
pub open spec fn row_after_update(params: UpdateParams, row: PostRow) -> PostRow {
    PostRow {
        id: row.id,
        author_id: row.author_id,
        title: match params.title {
            Some(t) => t,
            None => row.title,
        },
        body: match params.body {
            Some(b) => b,
            None => row.body,
        },
        created_at: row.created_at,
    }
}

/// The post an update of the owned `row`, whose stored tags are
/// `stored_tags`, returns: `plan_update`'s plan turned into a post by
/// `UpdatePlan::into_post`.
pub open spec fn updated_post(params: UpdateParams, row: PostRow, stored_tags: Seq<Seq<char>>) -> PostView {
    PostView {
        id: params.id,
        author_id: params.author_id,
        title: planned_title(params, row),
        body: planned_body(params, row),
        tags: tags_after_update(params, stored_tags),
        created_at: row.created_at,
    }
}

/// The plan of an update: `NotFound` when no post with the id is owned by
/// the author (no row, or a row of another post or another author);
/// otherwise each given field replaces the stored one.
pub fn plan_update(params: UpdateParams, existing: Option<PostRow>) -> (res: Result<UpdatePlan, RepoError>)
    ensures
        match existing {
            None => res matches Err(RepoError::NotFound),
            Some(row) => if !is_owned_target(params, row) {
                res matches Err(RepoError::NotFound)
            } else { res matches Ok(plan) && {
                &&& plan.id == params.id
                &&& plan.author_id == params.author_id
                &&& plan.title@ == planned_title(params, row)
                &&& plan.body@ == planned_body(params, row)
                &&& plan.new_tags == params.tags
                &&& plan.created_at == row.created_at
            } },
        },
{
    match existing {
        None => Err(RepoError::NotFound),
        Some(row) => {
            if row.id != params.id || row.author_id != params.author_id {
                return Err(RepoError::NotFound);
            }
            let title = match params.title {
                Some(t) => t,
                None => row.title,
            };
            let body = match params.body {
                Some(b) => b,
                None => row.body,
            };
            Ok(UpdatePlan {
                id: params.id,
                author_id: params.author_id,
                title,
                body,
                new_tags: params.tags,
                created_at: row.created_at,
            })
        },
    }
}

impl UpdatePlan {
    /// Whether the post's stored tags must be read back: only when the
    /// update gives no new tags.
    pub fn reads_stored_tags(&self) -> (b: bool)
        ensures
            b == (self.new_tags is None),
    {
        self.new_tags.is_none()
    }

    /// The updated post: the plan's fields, with the new tags when given and
    /// otherwise the stored ones.
    pub fn into_post(self, stored_tags: Vec<String>) -> (post: Post)
        ensures
            post@ == (PostView {
                id: self.id,
                author_id: self.author_id,
                title: self.title@,
                body: self.body@,
                tags: match self.new_tags {
                    Some(t) => texts(t@),
                    None => texts(stored_tags@),
                },
                created_at: self.created_at,
            }),
    {
        let tags = match self.new_tags {
            Some(t) => t,
            None => stored_tags,
        };
        Post {
            id: self.id,
            author_id: self.author_id,
            title: self.title,
            body: self.body,
            tags,
            created_at: self.created_at,
        }
    }
}

/// Applying the same update twice changes nothing more: once the first
/// update's row and tags are stored, the second finds the post still owned,
/// writes the same row and tags again, and returns the same post.
pub proof fn lemma_update_is_idempotent(params: UpdateParams, row: PostRow, stored_tags: Seq<Seq<char>>)
    requires
        is_owned_target(params, row),
    ensures
        is_owned_target(params, row_after_update(params, row)),
        row_after_update(params, row_after_update(params, row)) == row_after_update(params, row),
        tags_after_update(params, tags_after_update(params, stored_tags)) == tags_after_update(params, stored_tags),
        updated_post(params, row_after_update(params, row), tags_after_update(params, stored_tags))
            == updated_post(params, row, stored_tags),
{
}

/// The outcome of a delete that removed `rows_affected` rows: none removed
/// means the post did not exist or was not the author's.
pub fn delete_outcome(rows_affected: u64) -> (res: Result<(), RepoError>)
    ensures
        rows_affected == 0 ==> res matches Err(RepoError::NotFound),
        rows_affected > 0 ==> res is Ok,
{
    if rows_affected > 0 {
        Ok(())
    } else {
        Err(RepoError::NotFound)
    }
}

/// The user a lookup returns: none found is `NotFound`.
pub fn found_user(row: Option<User>) -> (res: Result<User, RepoError>)
    ensures
        match row {
            None => res matches Err(RepoError::NotFound),
            Some(u) => res matches Ok(v) && v.id == u.id && v.email@ == u.email@,
        },
{
    match row {
        None => Err(RepoError::NotFound),
        Some(u) => Ok(u),
    }
}

/// A user from a row whose id is stored as text; an id that is no UUID is an
/// unknown error with the parser's message.
pub fn parse_user_row(row: &TextUserRow) -> (res: Result<User, RepoError>)
    ensures
        match uuid_parse_str(row.id@) {
            Ok(id) => res matches Ok(u) && u.id == id && u.email@ == row.email@,
            Err(msg) => res matches Err(RepoError::Unknown(m)) && m@ == msg,
        },
{
    match parse_author(row.id.as_str()) {
        Ok(id) => Ok(User { id, email: row.email.clone() }),
        Err(e) => Err(e),
    }
}

/// Users from rows whose ids are stored as text, in order; the first row
/// whose id is no UUID makes the read fail with that row's parse error.
pub fn parse_user_rows(rows: &Vec<TextUserRow>) -> (res: Result<Vec<User>, RepoError>)
    ensures
        match res {
            Ok(users) => {
                &&& users@.len() == rows@.len()
                &&& forall|i: int| 0 <= i < rows@.len() ==> {
                    &&& uuid_parse_str(#[trigger] rows@[i].id@) == Ok::<u128, Seq<char>>(users@[i].id)
                    &&& users@[i].email@ == rows@[i].email@
                }
            },
            Err(e) => exists|k: int| {
                &&& 0 <= k < rows@.len()
                &&& (forall|j: int| 0 <= j < k ==> (#[trigger] uuid_parse_str(rows@[j].id@)) is Ok)
                &&& #[trigger] uuid_parse_str(rows@[k].id@) matches Err(msg)
                &&& e matches RepoError::Unknown(m) && m@ == msg
            },
        },
{
    let mut users: Vec<User> = Vec::new();
    let mut i: usize = 0;
    while i < rows.len()
        invariant
            i <= rows@.len(),
            users@.len() == i,
            forall|j: int| 0 <= j < i ==> (#[trigger] uuid_parse_str(rows@[j].id@)) is Ok,
            forall|j: int| 0 <= j < i ==> {
                &&& uuid_parse_str(#[trigger] rows@[j].id@) == Ok::<u128, Seq<char>>(users@[j].id)
                &&& users@[j].email@ == rows@[j].email@
            },
        decreases rows@.len() - i,
    {
        match parse_user_row(&rows[i]) {
            Ok(u) => users.push(u),
            Err(e) => {
                return Err(e);
            },
        }
        i = i + 1;
    }
    Ok(users)
}

} // verus!
