//! A small teaching library for a SQL-injection practice site.
//!
//! The site serves a challenge index, a hello page, a JSON user-creation
//! endpoint, and one deliberately vulnerable search endpoint that splices
//! untrusted input into a SQL query string. Everything the handlers decide
//! or compute — routing, query construction, row decoding, escaping and
//! page rendering — lives here with verified contracts; the HTTP transport
//! and the database driver sit outside the library.

pub mod escape;
pub mod model;
pub mod pages;
pub mod query;
pub mod routes;
pub mod text;
