//! The decision logic of a small shop backend: a product catalog and a
//! per-user shopping cart, both persisted in a relational database.
//!
//! Every route is a short conversation with the database. The modules here
//! hold the part worth stating exactly: given what the database answered,
//! which statement is issued next and which body the route responds with.
//! The surrounding binary performs the HTTP and SQL work and feeds the
//! outcomes back in.

pub mod declaration;
mod ids;
pub mod product;
pub mod shopping_cart;
