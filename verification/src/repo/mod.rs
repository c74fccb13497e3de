//! The repositories' data, and the rules by which the stored rows become it.

pub mod post;
pub mod rows;
pub mod subscription;
pub mod user;
