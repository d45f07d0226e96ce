use vstd::prelude::*;

verus! {

#[derive(Debug, Clone, PartialEq, Eq)]
pub struct CreateCategoryRequest {
    pub name: String,
}

#[derive(Debug, Clone, PartialEq, Eq)]
pub struct UpdateCategoryRequest {
    pub name: String,
}

#[derive(Debug, Clone, Copy, PartialEq, Eq, Structural)]
pub struct CategoryQuery {
    pub limit: Option<i64>,
    pub offset: Option<i64>,
}

#[derive(Debug, Clone, PartialEq, Eq)]
pub struct ProfileRequest {
    pub bio: Option<String>,
    pub birth_date: Option<String>,
    pub phone: Option<String>,
    pub document: Option<String>,
    pub profession: Option<String>,
    pub avatar: Option<String>,
    pub confirm_email: Option<bool>,
    pub unsubscribe: Option<bool>,
    pub access_level: Option<String>,
}

#[derive(Debug, Clone, PartialEq, Eq)]
pub struct UserRequest {
    pub username: String,
    pub email: String,
    pub first_name: String,
    pub last_name: String,
    pub password: String,
    pub profile: Option<ProfileRequest>,
}

#[derive(Debug, Clone, PartialEq, Eq)]
pub struct UpdateUserRequest {
    pub first_name: Option<String>,
    pub last_name: Option<String>,
}

} // verus!
