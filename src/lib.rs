//! Core of a content-publishing backend: sessions and role-gated access,
//! the account registration and confirmation workflow, the answers of the
//! datastore's authentication procedures, and the article projections.
//!
//! Every function here is plain computation on values; the server around it
//! performs the datastore queries, the mail dispatch and the cookie transport,
//! and hands the results in.

pub mod credentials;
pub mod database;
pub mod articles;
pub mod email;
pub mod config;
pub mod session;
pub mod workflow;
pub mod html;
