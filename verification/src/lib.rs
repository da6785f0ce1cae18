//! Animation and event-dispatch core for rectangular interactive widgets.
//!
//! A widget keeps a position, a size and an overlay intensity, each of
//! which moves toward a target over a fixed time ([`animation`]), and it
//! turns cursor and button events into hover and press transitions
//! ([`button`]). Drawing, windows and callbacks are left to the caller:
//! the core reports what has to be shown again and which callback is due.
//!
//! All quantities are integers. Lengths, coordinates, depths and
//! intensities are fixed-point numbers counted in thousandths (see
//! [`geometry::UNIT`]); spans of time are counted in microseconds.

pub mod animation;
pub mod button;
pub mod error;
pub mod event;
pub mod geometry;
pub mod window_app;
