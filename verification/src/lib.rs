//! Turns pages and JSON listings of several web sites into RSS 2.0 feeds.
//!
//! The HTTP side (fetching pages, serving routes) lives in the application;
//! this library holds everything that decides what a feed says.
pub mod dates;
pub mod docs;
pub mod error;
pub mod feeds;
pub mod html;
pub mod markup;
pub mod routes;
pub mod text;
pub mod utils;
