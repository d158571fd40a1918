//! A relational data-access layer for a small blogging application.
//!
//! The crate manages three entity kinds (users, posts, comments) held by a
//! storage engine that is modelled here as an owned, committed row store.
//! Repository operations perform transactional writes that hand back the
//! freshly created row, and read queries that assemble parent records
//! together with their dependent children in two passes rather than one
//! query per parent. Every operation carries a contract that pins down the
//! returned value and the new state of the store.

#![allow(unused_imports)]

pub mod comments;
pub mod errors;
pub mod grouper;
pub mod messages;
pub mod models;
pub mod posts;
pub mod store;
pub mod users;
