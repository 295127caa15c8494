//! A version-control abstraction layer: commit lookup, unified-diff
//! rendering with path exclusion, reference validation, commit-range
//! enumeration, and timestamp formatting, backed by a local git
//! repository.

pub mod backend;
pub mod calendar;
pub mod clipboard;
pub mod exclude;
pub mod files;
pub mod git;
pub mod patch;
pub mod refname;
pub mod stack;
pub mod strnum;
pub mod strutil;
pub mod timefmt;
