//! Core of a command-line tool that lists the issue labels of a repository on
//! a remote code-hosting service, or copies them from one repository to
//! another.
//!
//! The crate holds the tool's logic: parsing and validating repository paths,
//! resolving the effective access token from a command-line override and a
//! stored configuration, and the decisions of the list and copy operations.
//! Network calls, the configuration file on disk, and the terminal prompt are
//! external collaborators; their outcomes are handed in as plain values.

pub mod args;
pub mod cli;
pub mod config;
pub mod copy;
pub mod label;
pub mod list;
pub mod repo;
