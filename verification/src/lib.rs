//! A small static-website host: configuration, HTTP Basic authentication and
//! the resolution of request paths to files under the site directory.

pub mod auth;
pub mod path;
pub mod server;
pub mod state;
pub mod www;
