//! Packaging, validation and publishing rules of the `boo` package manager.
//!
//! The crate holds the rules only: it decides what an archive's issues are,
//! which request goes out next and what a registry's answer means. Reading
//! files, talking to the network and waiting are left to the caller.

pub mod api;
pub mod archive;
pub mod auth_flow;
pub mod common;
pub mod issues;
pub mod manifest;
pub mod name;
pub mod orchestrator;
pub mod outcome;
pub mod publish;
pub mod publish_job;
pub mod report;
pub mod text;
pub mod validate;
