//! Core of a small 2-D arcade game: a player-controlled circle dodges
//! enemy circles and collects star circles for score.
//!
//! Continuous quantities are carried in fixed point so that every step of
//! the per-frame cycle — move, confine, collide, count — has an exact
//! arithmetic meaning: positions are held in sub-units (one world unit is
//! `geometry::SUB_UNITS` sub-units), directions in milli-units of a unit
//! vector, elapsed time in milliseconds.  The per-frame driver lives in
//! [`server`]; the three actor kinds each have a module of their own.

pub mod audio;
pub mod enemy;
pub mod geometry;
pub mod player;
pub mod rng;
pub mod server;
pub mod star;
pub mod timer;
