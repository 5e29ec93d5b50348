//! The decisions of the desktop front end.
//!
//! Windows, channels, threads and clocks are the front end's own. What it does
//! with them is decided here: a state and what came in give the next state and
//! what to do.

pub mod audio;
pub mod config;
pub mod debugger;
pub mod emulator;
pub mod icon;
pub mod pixels;
pub mod state;
pub mod vram_viewer;
pub mod window;
