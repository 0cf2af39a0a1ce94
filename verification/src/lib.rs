//! Data-refresh-and-cache core for a git-hosted sprite/portrait corpus.
//!
//! The library keeps an in-memory, queryable snapshot of upstream data
//! fresh (single-flight refresh, atomic snapshot swap, change detection,
//! cache invalidation), reports ingestion failures as structured,
//! renderable reports, and offers a get-or-compute layer over an external
//! key/value cache store. All I/O (git, cache store, file system,
//! notification sink) is driven by a thin unverified shell around this
//! crate; every decision the shell acts on is computed and proved here.

pub mod assets;
pub mod cache;
pub mod datafiles;
pub mod datamodel;
pub mod git_source;
pub mod sprite_collab;
pub mod strutil;
pub mod validator;
