//! Vendored addon packages for a host project: a manifest of packages, each
//! backed by a repository pinned to a commit, whose directories are copied
//! into the project (install) and back (apply). The library decides; the
//! steps it hands out are run by the caller.

pub mod commands;
pub mod content;
pub mod error;
pub mod links;
pub mod manifest;
pub mod repo_name;
pub mod session;
pub mod step;
pub mod store;
pub mod sync;
pub mod vendor;
