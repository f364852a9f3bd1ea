//! Shared COM declarations.

pub mod decl;
pub mod privs;
