//! Network-based Game Boy link cable using the BGB 1.4 link protocol, for
//! compatibility with BGB and other emulators.
//! See: <https://bgb.bircd.org/bgblink.html>
//!
//! Sockets, threads and clocks belong to the program around the library: here
//! stand the packets, the state that both sides of a connection keep, and what
//! each event does to it. Times are nanoseconds since a moment that the
//! program picks.

pub mod handshake;
pub mod packet;
pub mod session;
pub mod state;
