//! The shapes that a transport layer hands to the user store and gets back
//! from it. They are plain text fields; turning them into a wire format and
//! back is the transport's business.

use vstd::prelude::*;

verus! {

/// An email and a password as text: what both requests hold.
pub ghost struct Credentials {
    pub email: Seq<char>,
    pub password: Seq<char>,
}

/// A user as a caller sees it: the identifier and the email, never the hash.
pub ghost struct UserRecord {
    pub user_id: Seq<char>,
    pub email: Seq<char>,
}

/// A request to create a user.
#[derive(Clone, Debug, PartialEq, Eq)]
pub struct CreateUserRequest {
    pub email: String,
    pub password: String,
}

/// The user that a `CreateUserRequest` created.
#[derive(Clone, Debug, PartialEq, Eq)]
pub struct CreateUserResponse {
    pub user_id: String,
    pub email: String,
}

/// A request to log a user in.
#[derive(Clone, Debug, PartialEq, Eq)]
pub struct GetUserRequest {
    pub email: String,
    pub password: String,
}

/// The user that a `GetUserRequest` logged in.
#[derive(Clone, Debug, PartialEq, Eq)]
pub struct GetUserResponse {
    pub user_id: String,
    pub email: String,
}

impl View for CreateUserRequest {
    type V = Credentials;

    open spec fn view(&self) -> Credentials {
        Credentials { email: self.email@, password: self.password@ }
    }
}

impl View for GetUserRequest {
    type V = Credentials;

    open spec fn view(&self) -> Credentials {
        Credentials { email: self.email@, password: self.password@ }
    }
}

impl View for CreateUserResponse {
    type V = UserRecord;

    open spec fn view(&self) -> UserRecord {
        UserRecord { user_id: self.user_id@, email: self.email@ }
    }
}

impl View for GetUserResponse {
    type V = UserRecord;

    open spec fn view(&self) -> UserRecord {
        UserRecord { user_id: self.user_id@, email: self.email@ }
    }
}

impl CreateUserRequest {
    /// A request to create a user under `email` with `password`.
    pub fn new(email: String, password: String) -> (req: CreateUserRequest)
        ensures
            req@ == (Credentials { email: email@, password: password@ }),
    {
        CreateUserRequest { email, password }
    }
}

impl GetUserRequest {
    /// A request to log in under `email` with `password`.
    pub fn new(email: String, password: String) -> (req: GetUserRequest)
        ensures
            req@ == (Credentials { email: email@, password: password@ }),
    {
        GetUserRequest { email, password }
    }
}

impl CreateUserResponse {
    /// The reply for a user created as `user_id` under `email`.
    pub fn new(user_id: String, email: String) -> (resp: CreateUserResponse)
        ensures
            resp@ == (UserRecord { user_id: user_id@, email: email@ }),
    {
        CreateUserResponse { user_id, email }
    }
}

impl GetUserResponse {
    /// The reply for the user `user_id` logged in under `email`.
    pub fn new(user_id: String, email: String) -> (resp: GetUserResponse)
        ensures
            resp@ == (UserRecord { user_id: user_id@, email: email@ }),
    {
        GetUserResponse { user_id, email }
    }
}

} // verus!
