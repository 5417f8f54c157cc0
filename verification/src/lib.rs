//! Release management for binary packages and container images: moving
//! artifacts between a staging store, a package repository and container
//! registries, and rewriting package metadata without a rebuild.
//!
//! The crate holds the decisions of each operation as verified functions over
//! plain values. Running commands and touching the file system is left to the
//! caller, which performs the effect that a step asks for and hands the
//! outcome back.

pub mod artifacts;
pub mod cli;
pub mod commands;
pub mod debian_publish;
pub mod docker_promote;
pub mod errors;
pub mod paths;
pub mod process;
pub mod reversion;
pub mod storage;
pub mod text;
pub mod utils;
pub mod verification;
