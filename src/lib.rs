//! Client for repository metadata and README text of a code-hosting service.
//!
//! The library builds the HTTP requests that the service expects and decides
//! what the replies mean; sending the requests is left to the caller.

pub mod basic_info;
pub mod envelope;
pub mod error;
pub mod graphql;
pub mod http;
pub mod json;
pub mod repos;
