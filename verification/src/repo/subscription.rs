use vstd::prelude::*;

verus! {

/// A subscription of `subscriber_id` to the posts of `author_id`.
pub struct SubscribeParams {
    pub subscriber_id: u128,
    pub author_id: u128,
}

/// The subscription of `subscriber_id` to `author_id` to remove.
pub struct UnsubscribeParams {
    pub subscriber_id: u128,
    pub author_id: u128,
}

} // verus!
