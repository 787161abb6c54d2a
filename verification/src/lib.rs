//! Core logic of a source-based package manager: build-system detection,
//! dependency and flag extraction, build/install command planning, and a
//! durable ledger of installed packages.

pub mod build_system;
pub mod cli;
pub mod detect;
pub mod digest;
pub mod extract;
pub mod install;
pub mod ledger;
pub mod location;
pub mod manifest;
pub mod pipeline;
pub mod plan;
pub mod remove;
pub mod search;
pub mod text;
