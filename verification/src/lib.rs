//! Change detection and cache invalidation for an incremental project model.
//!
//! A language server re-answers queries over files that change on disk outside
//! its control.  This crate supplies the fingerprint primitive that lets an
//! incremental database decide whether a cached result may be reused: a
//! tri-state [`digest::Digest`] per trackable file, interned
//! [`paths::Digestible`] identities for cheap dependency edges, the
//! dependency-reporting protocol in [`database`], and, as the primary
//! consumer, manifest-driven crate resolution in [`cairo_project`].

pub mod digest;

pub mod paths;

pub mod database;

pub mod cairo_project;
