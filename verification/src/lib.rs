//! Semantic versions with a free-text prefix, and the operations that bump
//! them.
//!
//! [`version::Version`] reads a version out of a text such as `v1.2.3` or
//! `release-1.0.0-rc.1+20190722`, keeps what stands before the numbers as the
//! prefix, and writes the version back after a bump of one of its numbers or
//! a change of one of its labels. [`source`] decides from the command line
//! where the text comes from, and [`command::run`] is the whole command but
//! for the reading and the printing, which are the caller's.
//!
//! The grammar is that of the `semver` crate, which does the parsing of the
//! numbers and labels; [`grammar`] states it, and [`laws`] holds what follows
//! from it for every version.

pub mod args;
pub mod command;
pub mod error;
pub mod grammar;
pub mod laws;
pub mod semver_api;
pub mod source;
pub mod text;
pub mod version;
