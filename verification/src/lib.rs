//! A verified request builder for creating a pull request against a REST
//! service: required and optional fields are accumulated through a fluent
//! interface, and the accumulated state is serialized to an exact JSON wire
//! payload together with the destination path. Network transport is left to
//! the caller.

pub mod builder;
pub mod json;
pub mod laws;

pub use crate::builder::CreatePullRequestBuilder;
