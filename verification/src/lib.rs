//! The decisions of an Ory-backed Leptos site: element ids, the logout flow,
//! the permission checks against Ory Keto and the SQL it sends to SQLite.
pub mod database_calls;
pub mod ids;
pub mod migrations;
pub mod permissions;
pub mod logout;
pub mod views;
