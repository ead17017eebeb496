//! Access control and synchronisation core of a multi-tenant content-sharing
//! backend: repositories owned by users, posts inside them, threaded comments,
//! and subscriptions that grant read access through a shareable link.

pub mod access;
pub mod account;
pub mod error;
mod fresh;
pub mod link;
pub mod model;
pub mod push;
pub mod store;
pub mod subscribe;
pub mod table;
