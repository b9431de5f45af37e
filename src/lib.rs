//! A small CRUD service over a table of anime records.
//!
//! The library holds the records' shapes, the request schemas and every
//! decision a route makes: how a page is cut, which values a write binds, and
//! how a storage outcome becomes a reply. It also models the table and the
//! statements run against it, and states the service's laws over that model.
//! The HTTP server and the database driver stand around it and hand it plain
//! values.

pub mod handler;
pub mod ident;
pub mod model;
pub mod schema;
pub mod table;
