//! The interaction logic of a floating webcam bubble: which gesture the
//! pointer is over, what a press, a drag and a release do to the bubble's
//! state, and what the feedback ring shows.
//!
//! Measuring the pointer, moving and resizing the window and painting the
//! ring are left to the caller; this library decides what to do.
use vstd::prelude::*;

pub mod grip;
pub mod ring;
pub mod bubble;
pub mod laws;
