//! Core of the `sop` package manager: the project manifest, the version
//! resolver, the module cache and the commands that keep the two in step.

pub mod cache;
pub mod cli;
pub mod commands;
pub mod dependencies;
pub mod error;
pub mod installer;
pub mod numeral;
pub mod plan;
pub mod text;
pub mod toml_parser;
pub mod utils;
pub mod version;
