//! Core engine for remapping a physical game controller onto synthetic
//! keyboard and mouse actions.
//!
//! The library covers the data model (controller identities, binding tables,
//! profiles), the resolution logic that turns a raw controller event into a
//! synthetic action, the analog integrator that turns stick deflection into
//! cursor motion, and the cancellable translation loop that drives them.
//! Device polling, action emission and on-disk persistence are external
//! collaborators; the engine only decides, it never performs I/O.

pub mod action;
pub mod binding;
pub mod engine;
pub mod identity;
pub mod input;
pub mod integrator;
pub mod profile;
pub mod session;
pub mod window;
