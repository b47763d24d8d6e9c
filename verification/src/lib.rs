//! Account credentials: salted password hashing, the rules of user creation
//! and login, and a store of users that keeps emails unique.

pub mod credential;
pub mod decimal;
pub mod error;
pub mod http;
pub mod memory;
pub mod storage;
