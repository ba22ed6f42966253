//! A wandering stereo delay: a bounded random walk ("walker") drives the
//! read offset of a circular delay line, and the delayed signal is blended
//! with the dry input under a gain control.
//!
//! All signal and control values are fixed-point reals: an `i64` holding
//! the value scaled by [`fixed::SCALE`].

pub mod bounds;
pub mod engine;
pub mod fixed;
pub mod mix;
pub mod rng;
pub mod walker;
