//! What the operations of the library do, told by what goes in and what comes
//! out: how a read follows from the writes before it, what a transfer leaves on
//! both sides, which color a pixel has.

pub mod dma;
pub mod emulation;
pub mod front_end;
pub mod link;
pub mod machine;
pub mod memory;
pub mod picture;
pub mod serial;
pub mod session;
pub mod snapshot;
pub mod sound;
pub mod stubs;
pub mod text;
pub mod windows;
