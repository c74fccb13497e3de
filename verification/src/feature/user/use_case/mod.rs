//! The user use cases. Those that make several repository calls are written
//! as steps: each step names the next call, and the caller feeds back its
//! outcome until the use case is done.

pub mod get_me;
pub mod list_subscriptions;
pub mod subscribe;
pub mod unsubscribe;
