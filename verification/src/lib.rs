//! A fixed-timestep scheduling loop for an interactive simulation.
//!
//! The loop owns wall-clock time and decides, once per displayed frame, how
//! many fixed simulation steps to run, what interpolation fraction to hand to
//! the renderer, and whether to render at all while the window is hidden.
//! All time is kept in whole nanoseconds so the scheduling arithmetic is
//! exact; the embedding application supplies its behaviour through the
//! [`game_loop::GameCallbacks`] trait and drives the loop from its own event
//! dispatcher.

pub mod events;
pub mod game_loop;
pub mod model;
pub mod texture;
pub mod ui;
