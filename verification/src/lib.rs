//! Temperature-grid interpolation and aggregation for composite thermal
//! protection stacks.
//!
//! Raw per-material measurement series (heat capacity, thermal resistance and
//! emissivity over temperature) are healed of placeholder gaps, normalized to
//! the installed geometry, remapped onto a shared reference temperature grid,
//! averaged across a segment's depth, weighted by mass fraction, and summed
//! hierarchically: layers into an assembly, assemblies into a part.  An
//! assembly stored at two boundary thicknesses can be blended to any requested
//! thickness in between.
//!
//! All quantities are saturating fixed-point numbers: a stored `u64` counts
//! thousandths of the physical unit and every operation clamps its result to
//! `[0, VAL_MAX]`.  Reading measurement tables from disk, and writing the
//! derived profiles back out, is the caller's business; the functions here
//! compute on already-parsed values only.

pub mod assembly;
pub mod conduct;
pub mod data;
pub mod fixed;
pub mod gapfill;
pub mod geometry;
pub mod gridmap;
pub mod height;
pub mod part;

pub use fixed::{SCALE, VAL_MAX};
