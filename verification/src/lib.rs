//! The core of a host-driven scene editor: what the host and the simulation
//! loop hand to each other, and the undo/redo history.
//!
//! The host sets gizmo flags, uploads models and images, and asks for undo
//! and redo; the simulation loop takes all of that in once a tick. Every
//! entry point is a short step on plain data, so whoever shares the state
//! between the two sides holds it only for that step.

#![allow(non_snake_case, non_upper_case_globals)]

pub mod assets;
pub mod gizmo;
pub mod history;
pub mod mailbox;
pub mod payload;
pub mod runner;
pub mod systems;
pub mod tick;
