//! Detects installed copies of the Firefox browser and whether it is the
//! operating system's default web-content handler, producing one normalized
//! report per probe run.
//!
//! The library holds the detection logic itself: parsing desktop-entry text,
//! classifying release channels, resolving version strings, and evaluating
//! the per-platform default-browser fallback chains. Gathering the raw
//! evidence (directory listings, file contents, process output, registry
//! values) is left to the caller, which hands it in as plain values.

pub mod model;
pub mod probe;
pub mod text;
