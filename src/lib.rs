//! Authentication core of a user-management backend: salted password hashing,
//! signed time-bounded identity tokens, the bearer-token check on protected
//! requests, the login decision and the pure parts of the user-record service.
pub mod error;
pub mod hashing;
pub mod token;
pub mod gate;
pub mod users;
pub mod credentials;
