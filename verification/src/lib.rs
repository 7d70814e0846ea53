//! Verified core of the invite admission service.
pub mod config;
pub mod invite_join;
pub mod model;
pub mod policy;
pub mod projector;
pub mod push;
pub mod reference;
pub mod result;
pub mod store;
pub mod theorems;
