//! Core of a sensor sampling pipeline: a fixed-capacity smoothing ring
//! buffer, a latest-value broadcast channel with a bounded set of readers,
//! the mutual-exclusion discipline over the single analog converter, and
//! the per-cycle decisions of the acquisition and consumer tasks.
//!
//! Everything that touches hardware, the scheduler or a display lives
//! outside this crate; the functions here take the outcome of each
//! peripheral operation as a plain value and are verified for every
//! possible outcome.

pub mod broadcast;
pub mod metrics;
pub mod peripheral;
pub mod ring;
pub mod tasks;
