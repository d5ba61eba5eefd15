//! Lifetime management for handles to objects owned by a garbage-collected
//! runtime reached through a foreign call interface: strong global
//! references, weak global references, and bounded frames of local
//! references, all stated over an executable model of the runtime's
//! reference tables.
pub mod env;
pub mod errors;
pub mod global_ref;
pub mod objects;
pub mod release;
pub mod weak_ref;
