//! Verified core of a single-practitioner clinical scheduling backend.
//!
//! The library models the persistence-and-authentication command layer:
//! an in-memory relational store (`store::Db`) holding users, per-user
//! settings, patients and therapy sessions, together with credential
//! hashing, soft-delete visibility rules and the uniform response
//! envelope. The host application is responsible for durably persisting
//! the store's contents and for all I/O.

pub mod models;
pub mod credentials;
pub mod host;
pub mod order;
pub mod store;
pub mod identity;
pub mod patients;
pub mod sessions;
pub mod gateway;
pub mod laws;
