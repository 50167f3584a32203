//! Password authentication and session issuance.
//!
//! A [`store::CredentialStore`] keeps the user records and enforces that usernames are unique;
//! a [`store::SessionManager`] creates, keeps and validates session records. The functions of
//! [`auth`] compose the two into the registration, login and session-resolution pipelines and
//! state, as contracts over the views of the two stores, what each pipeline returns and changes.
//! [`decide`] holds the decisions of the pipelines apart from any storage, for a caller that
//! keeps its rows elsewhere, and [`guarantees`] what is proved of the pipelines as a whole.

pub mod auth;
pub mod clock;
pub mod decide;
pub mod entities;
pub mod guarantees;
pub mod password;
pub mod store;
