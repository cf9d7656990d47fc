//! A client-side query layer for a dataflow database engine.
//!
//! The layer keeps the recipe that the engine has installed, memoizes the
//! handles that the engine hands out for tables and views, keeps a registry of
//! named parameterized queries, and dispatches incoming statements. It never
//! talks to the engine itself: every operation yields a [`protocol::Step`] that
//! says what the caller has to ask of the engine, and takes the engine's answer
//! back through the matching completion method.

pub mod backend;
pub mod dispatch;
pub mod error;
pub mod guard;
pub mod predicate;
pub mod protocol;
pub mod recipe;
pub mod registry;
pub mod statement;
pub mod table;
pub mod text;
pub mod value;
