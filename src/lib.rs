//! Aiming and launching for a physics-driven frog.
//!
//! The library holds the interaction logic of the game: the per-entity
//! gesture state machine that turns pointer signals into "aim started",
//! "aim cancelled" and "aim released", the tap heuristic that tells a short
//! click from a real drag, and the launch computation that turns a released
//! drag into a velocity. Positions are whole screen or world units; the host
//! converts to and from the engine's own coordinates.

pub mod controls;
pub mod gameplay;
pub mod geometry;
