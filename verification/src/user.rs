use vstd::prelude::*;

verus! {

/// An account record as the service stores it.
#[derive(Clone, Debug)]
pub struct User {
    pub uuid: String,
    pub username: String,
    pub password_hash: String,
}

} // verus!
