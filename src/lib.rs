//! A URL shortener: random short identifiers, a table from identifier to
//! target URL, and the HTTP replies of its two endpoints.

pub mod ident;
pub mod laws;
pub mod reply;
pub mod service;
pub mod table;
