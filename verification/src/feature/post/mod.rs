//! Posts: listing, reading, writing and deleting one's own posts.

use vstd::prelude::*;

pub mod dto;
pub mod use_case;

verus! {

/// The page size of a listing that gives no `limit`.
pub fn default_limit() -> (n: u32)
    ensures
        n == 50,
{
    50
}

} // verus!
