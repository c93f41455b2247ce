//! Replies of the server.
pub mod response;
