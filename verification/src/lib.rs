//! An access-controlled registry of hero records.
//!
//! The registry maps integer identifiers to [`hero::Hero`] records. Every
//! operation takes the caller's identity as an explicit argument, supplied by
//! the hosting environment, and enforces an authorization rule before touching
//! the state. The abstract model of the registry and the laws that hold of its
//! operations live in [`model`] and [`laws`].

pub mod hero;
pub mod model;
pub mod registry;
pub mod laws;

pub use hero::Hero;
pub use hero::HeroError;
pub use registry::GameFight;
