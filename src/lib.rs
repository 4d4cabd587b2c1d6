//! Turns one registry dependency of a package manifest into a local path
//! dependency: the version is read from the entry, the cached source tree is
//! located by name and version, and the entry is rewritten in place with its
//! old form kept as a comment.
pub mod cache;
pub mod entry;
pub mod manifest;
pub mod run;
