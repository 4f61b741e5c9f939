//! The verified core of a small photo-sharing server: identifiers, the
//! event-sourced store of users, sessions, uploads and photos, the
//! in-memory event log and blob store, authentication and permissions, and
//! the decisions that the command and upload endpoints take.
pub mod app_state;
pub mod common;
pub mod permission;
pub mod routes;
pub mod server;
