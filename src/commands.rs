//! The computing part of the commands.
pub mod expand;
