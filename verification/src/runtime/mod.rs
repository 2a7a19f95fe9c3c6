//! The object runtime: memory, objects, types, modules and stack frames.

pub mod error;
pub mod namespace;
pub mod object;
pub mod memory;
pub mod machine;
pub mod floats;
pub mod natives;
pub mod builtins;
pub mod calls;
pub mod functions;
pub mod frames;
pub mod laws;
pub mod method_laws;
