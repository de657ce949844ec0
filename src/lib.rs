//! Scaffolding for new Go web services: from a handful of feature flags, the
//! directories to create, the files to write with their full text, and the
//! ordered toolchain steps to run against the new tree.
//!
//! The environment helper (`internal/env`, `env.go` and `.env`) is generated
//! when there is something for it to read: with sessions or with a database.

pub mod config;
pub mod content;
pub mod layout;
pub mod pipeline;
pub mod plan;
pub mod prompt;
pub mod templates;
pub mod text;
pub mod username;
