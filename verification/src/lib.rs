//! Library-management service core: an in-memory store of lending records
//! (game systems, titles, books, members, guilds, rentals) together with the
//! identity subsystem that authenticates API callers against an external
//! identity provider and enforces role-based access.

pub mod api;
pub mod auth;
pub mod business;
pub mod database;
pub mod error;
pub mod settings;
