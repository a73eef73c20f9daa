//! Color-driven input automation: tolerant color matching, density-annotated
//! screen scanning, target selection, randomized motion curves, input step
//! emission, and the decision machines that drive an event script.

pub mod color;
pub mod random;
pub mod scan;
pub mod geometry;
pub mod select;
pub mod curve;
pub mod script;
pub mod emit;
pub mod executor;
pub mod run_loop;
