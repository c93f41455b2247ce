//! Documentation of the server's routes.
pub mod routes;
