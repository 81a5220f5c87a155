//! Decision logic of a transparent TCP relay: chunk classification, the
//! per-direction forwarding state machine, the pairing of two directions into a
//! session, and the listen-mode and bridge-mode loops.
pub mod chunk;
pub mod forward;
pub mod endpoint;
pub mod session;
pub mod listen;
pub mod bridge;
