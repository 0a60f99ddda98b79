//! Calibrated conversion of logical screen rectangles into physical pixel
//! rectangles, with the bookkeeping around a single capture.
//!
//! A platform reports a nominal scale for each display, and what a capture
//! returns may be scaled by more than that. The calibrator measures the
//! difference with one probe capture, the transformer converts a logical
//! request into the physical rectangle to capture, the orchestrator wraps
//! what the capture returned, and the namer spells the values that were
//! used into the artifact's name.
//!
//! Nothing here captures or stores anything: the capture primitive is the
//! caller's, handed in as a closure or run between two calls.
//!
//! Scale factors are exact positive rationals, so that every product and
//! every truncation is the mathematical one.

pub mod calibrator;
pub mod display;
pub mod frame;
pub mod geometry;
pub mod namer;
pub mod orchestrator;
pub mod scale;
pub mod transformer;
