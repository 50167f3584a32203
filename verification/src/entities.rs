//! The two kinds of record that are kept: users and sessions.

pub mod session;
pub mod user;
