//! Interactive view and session state for a GPU-rendered fractal viewer.
//!
//! The crate holds the decisions of the viewer: how input events are routed,
//! which parameter sets are valid, which compiled program is drawn with, how a
//! configuration reload is applied, and how the frame loop advances. Real
//! numbers are carried as IEEE 754 bit patterns ([`scalar::Scalar`]); the
//! arithmetic on them, the window, the device and the storage belong to the
//! caller.

pub mod scalar;
pub mod view;
pub mod mouse;
pub mod tunables;
pub mod clock;
pub mod input;
pub mod program;
pub mod config;
pub mod session;
