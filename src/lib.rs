//! Verified core of an embedding bridge that loads a script module into an
//! embedded engine, reconciles its export surface and invokes its exports.
pub mod bootstrap;
pub mod error;
pub mod invoke;
pub mod location;
pub mod module;
pub mod resolver;
