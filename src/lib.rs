//! Containment checks and file operation decisions for a workspace that
//! must never be acted on outside its root directory.
pub mod error;
pub mod guard;
pub mod ops;
pub mod paths;
pub mod tree;
