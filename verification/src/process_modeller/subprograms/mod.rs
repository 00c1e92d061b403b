//! The process modeller's subcommands.

pub mod create_model;
pub mod helper;
