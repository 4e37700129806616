//! User answers.

use vstd::prelude::*;

verus! {

#[derive(Clone, Debug, PartialEq, Eq)]
pub struct UserResponseSchema {
    pub _id: i32,
    pub username: String,
    pub email: String,
    pub namespace: String,
}

#[derive(Clone, Debug, PartialEq, Eq)]
pub struct GetUserOrganizationsResponse {
    pub organizations: Vec<OrganizationResponse>,
}

#[derive(Clone, Debug, PartialEq, Eq)]
pub struct OrganizationResponse {
    pub name: String,
    pub namespace: String,
}

} // verus!
