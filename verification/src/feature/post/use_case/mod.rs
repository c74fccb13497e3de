//! Each use case says what it asks of the post repository and what it makes
//! of the answer; the caller runs the repository call in between.

pub mod create_post;
pub mod delete_post;
pub mod get_post;
pub mod list_posts;
pub mod update_post;
