//! Repository-management core: ecosystem, version-control and package-manager
//! detection, the commit-wrapped operation protocol, and version bump
//! arithmetic, stated over plain values so every decision is verified.

pub mod boilerplate;
pub mod command;
pub mod config;
pub mod dependencies;
pub mod commit_wrapped_operation;
pub mod ecosystem;
pub mod json;
pub mod package_manager;
pub mod template_file;
pub mod text;
pub mod vcs;
pub mod workspace;
pub mod version;
