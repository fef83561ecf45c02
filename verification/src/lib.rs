//! A stable-fluids simulation expressed as a schedule of full-screen GPU
//! passes.
//!
//! The library decides *what* the GPU is told and in which order: every
//! operator of the solver yields the exact list of [`command::GpuCommand`]s of
//! one draw, and the [`scheduler::Scheduler`] strings the operators of one
//! frame together while rotating the double-buffered fields. Whoever embeds
//! the library owns the graphics context and carries the commands out one by
//! one.
//!
//! What a step is meant to draw is laid down in [`frame`]; [`trace`] shows
//! that a context which receives the commands makes exactly those draws.
//!
//! Single-precision values never take part in arithmetic here; they travel as
//! [`scalar::Scalar`] bit patterns from the caller into uniforms and texels.

pub mod scalar;
pub mod command;
pub mod error;
pub mod render;
pub mod texture;
pub mod render_fluid;
pub mod trace;
pub mod frame;
pub mod scheduler;
pub mod shader;
pub mod gui;
pub mod dye;
