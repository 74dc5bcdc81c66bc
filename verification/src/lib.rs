//! A bounded, in-memory log pool.
//!
//! The pool keeps the most recent entries up to a fixed capacity, tags each
//! entry with an id taken from a counter that only grows, and answers
//! queries by position and by verbosity.
//!
//! * [`verbosity`] holds the five ordered levels.
//! * [`model`] is the mathematical description of a pool.
//! * [`laws`] states what follows from it for every pool.
//! * [`pool`] is the pool itself, a plain value owned by one caller.
//! * [`render`] turns entries into the lines a console shows.
//! * [`logger`] is the handle that guards one pool with a lock so that many
//!   callers can share it; [`sync`] declares the lock.
//! * [`error`] holds the ways an operation can fail.
pub mod error;
pub mod laws;
pub mod logger;
pub mod model;
pub mod pool;
pub mod render;
pub mod sync;
pub mod verbosity;
