//! Dependency license notices: how the gathered licenses of a crate's
//! dependencies are rendered into one notice text, where the `about.toml`
//! configuration is looked for, and what the `--license-notice` flag does.

pub mod notice;
pub mod config;
pub mod cli;
