//! Hook tables, file-pattern checks and `try-repo` configuration logic of a
//! pre-commit hook runner.

pub mod builtin_hooks;
pub mod config;
pub mod meta_hooks;
pub mod pattern;
pub mod text;
pub mod toml_out;
pub mod try_repo;
