//! Placement-ready geometry and level indexing for LDtk-style tile worlds.
//!
//! The library converts between the source format's Y-down pixel/grid
//! coordinates and Y-up world coordinates, synthesizes per-cell tile
//! descriptors and per-entity placement transforms from raw manifest
//! records, and resolves a project manifest into an insertion-ordered
//! level registry.

pub mod external_level;
pub mod frac;
pub mod ldtk;
pub mod project;
pub mod tile_makers;
pub mod utils;
