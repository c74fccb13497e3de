//! Request handling, repository and messaging rules of the itx backend and
//! its workers, with their contracts.

pub mod error;
pub mod ids;
pub mod text;
pub mod repo;
pub mod feature;
pub mod middleware;
pub mod queue;
pub mod listener;
pub mod props;
pub mod dispatcher;
