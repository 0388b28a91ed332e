//! Host-side orchestration for a fixed-scene GPU path tracer.
//!
//! The library plans everything the host must get right for the compute and
//! presentation passes to agree: byte-exact entity records, the packed render
//! configuration, the pixel-coordinate table, buffer and bind-group wiring,
//! dispatch sizing, and the per-frame command sequence.  All scalar fields
//! that the GPU reads as 32-bit floats are carried as their IEEE-754 bit
//! patterns (`u32`), which the host only packs and never computes with.
//! The windowing shell creates the actual device objects from these plans
//! and replays the command sequence against the GPU queue.

pub mod binder;
pub mod config;
pub mod entity;
pub mod generator;
pub mod orchestrator;
pub mod presenter;
pub mod settings;
pub mod words;
