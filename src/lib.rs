//! Rest tracking and pose synchronisation for rigid bodies.
//!
//! Each simulation tick the library decides, per body, whether the body has been still
//! long enough to fall asleep, wakes sleeping bodies that were disturbed, and copies the
//! simulated pose into the transform a presentation layer reads.
//!
//! All quantities are integers in fixed-point units chosen by the caller: velocities,
//! forces and thresholds share one unit, time is counted in a unit of its own (for
//! instance microseconds), and planar angles are counted in thousandths of a degree.
pub mod body;
pub mod laws;
pub mod pose;
pub mod systems;
pub mod vector;
