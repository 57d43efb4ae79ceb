//! Verified core of the PipeWire SPA bindings: listener storage, the SPA list,
//! parameter info and the POD (plain old data) binary format.
pub mod error;
pub mod listeners;
pub mod spa;

