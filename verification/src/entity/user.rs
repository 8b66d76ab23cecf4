//! The users of the platform.

use vstd::prelude::*;

verus! {

/// A user.
#[derive(Debug)]
pub struct User {
    pub id: String,
    pub first_name: String,
    pub last_name: Option<String>,
    pub name: String,
    pub email: String,
}

} // verus!
