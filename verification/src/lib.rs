//! Simulation core of a two-paddle, single-ball arcade game.
//!
//! The engine is a frame-stepped 2D physics simulation: axis-aligned
//! collision resolution, an acceleration-clamped movement controller shared
//! by human- and computer-controlled paddles, a trajectory-prediction AI
//! that folds wall reflections into a closed-form interception formula, and
//! a goal/serve state machine.
//!
//! All quantities are fixed-point integers in milli-units: a position of
//! `1000` is one play-field unit, a velocity of `1000` is one unit per
//! second, and time is counted in milliseconds.  Rendering, input polling
//! and window management are outside collaborators: the core receives
//! already-abstracted input (a pointer position in local coordinates,
//! key-held booleans, a frame time delta, a seeded random stream) and
//! exposes position, velocity and score state for a renderer to read.

pub mod ai;
pub mod bounds;
pub mod constants;
pub mod game;
pub mod num;
pub mod physics;
pub mod player;
pub mod rng;
pub mod score;
pub mod vec2;
