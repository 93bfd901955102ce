use vstd::prelude::*;

verus! {

/// A user row joined with the name of its role.
#[derive(Debug, Clone)]
pub struct UserWithRole {
    pub id: i32,
    pub email: String,
    pub password: String,
    pub role_name: String,
}

} // verus!
