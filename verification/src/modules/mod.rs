//! The command modules.

pub mod admin;
pub mod persona;
