//! What the subcommands print.
pub mod env;
