//! A Game Boy core with its link cable, audio queue, memory map and the
//! decisions of its desktop front end, stated and proved in Verus.

pub mod audio_queue;
mod bits;
pub mod devices;
pub mod diagnostics;
pub mod gameboy;
pub mod hardware;
pub mod laws;
pub mod mmu;
pub mod mobile_sys;
pub mod network_link;
pub mod serial;
pub mod snapshot;
pub mod text;
pub mod ui;
