//! A database-agnostic data access layer: a backend-neutral value model, a
//! structural schema-validation engine, and a query/condition algebra that
//! every storage backend adapter must honor when translating requests into
//! its native protocol.

pub mod driver;
pub mod error;
pub mod keymap;
pub mod outside;
pub mod query;
pub mod schema;
pub mod text;
pub mod value;
