//! A task tracker whose tasks persist as a JSON array.
//!
//! The store keeps tasks keyed by identifier, hands out identifiers from a
//! counter that never goes back, and reads and writes its records through
//! `serde_json`. The command layer turns the words of a command line into one
//! operation on the store and reports what happened.

pub mod comando;
pub mod estado;
pub mod gestor;
pub mod json;
pub mod leyes;
pub mod tarea;
pub mod texto;
