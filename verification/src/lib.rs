//! Verified model of a minimal OpenGL triangle viewer.
//!
//! The program opens a window, creates a core-profile rendering context,
//! uploads one hard-coded triangle and redraws it every frame until the
//! user quits. Everything the program decides or computes — the vertex
//! data and its interleaving, the attribute layout, the context request,
//! the event-driven loop state machine and the frame pacing — lives here
//! with contracts. The unverified shell performs the actual windowing and
//! GPU calls, feeding this model plain values and obeying its decisions.

pub mod context;
pub mod events;
pub mod frame;
pub mod geometry;
pub mod layout;
