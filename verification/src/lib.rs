//! Core state machine for a live 3D scene: a transform hierarchy over an
//! arena of nodes, a first-person camera controller fed by pointer motion,
//! a time-driven rotation animator, and a frame scheduler that runs the
//! three in a fixed order once per rendered frame.
//!
//! All quantities are exact fixed-point integers: angles in nanoradians,
//! lengths and scale factors in nano-units, time in microseconds.  The
//! rendering backend (outside this crate) evaluates the resulting affine
//! factor chains into floating-point matrices.

pub mod animator;
pub mod camera;
pub mod rotation;
pub mod scene;
pub mod scheduler;
pub mod transform;
