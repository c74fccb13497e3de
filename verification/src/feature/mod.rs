//! The backend's features: what each request asks of the repositories and
//! how their answers become the reply.

pub mod health;
pub mod post;
pub mod user;
