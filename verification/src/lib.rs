//! Node registry and telemetry views for a mesh-radio dashboard.
//!
//! The crate keeps one record per mesh participant, retains a bounded
//! telemetry history for each of them, derives the sorted and filtered table
//! that a front end shows, and drives the list / detail / help display modes.
//!
//! Contracts are stated over views: sequences, maps and plain numbers that
//! stand for the records. Verus proves every function against its contract,
//! but for the few that call into another crate; those are marked as trusted
//! where they stand, with what is claimed of the call.
//!
//! Fractional quantities are fixed-point integers: readings count millionths
//! of their unit, coordinates ten-millionths of a degree.

pub mod details;
pub mod graph;
pub mod node;
pub mod projector;
pub mod registry;
pub mod rows;
pub mod series;
pub mod tab;
pub mod text;
