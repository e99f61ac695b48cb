//! Users: the service stores no more of a user than an id and a
//! creation instant.

use vstd::prelude::*;

verus! {

/// A registered user.
#[derive(Clone, Copy, Debug)]
pub struct User {
    pub id: u128,
    pub created_at: i64,
}

} // verus!
