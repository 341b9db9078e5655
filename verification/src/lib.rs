//! Core logic of a small Rust IDE: the bookkeeping of the open source file
//! and Cargo project, the decisions the editor takes on user events, and the
//! Cargo commands it runs.

pub mod digest;
pub mod paths;
pub mod state;
pub mod cargo;
pub mod keys;
pub mod editor;
