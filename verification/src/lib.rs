//! Core of a line-driven block-submission pipeline for a blockchain node.
//!
//! The library holds the verified logic of the driver: the fixed-width
//! frame protocol, the hex codec for payloads and announcements, the
//! staged decode-verify-submit pipeline for candidate blocks, and the
//! state of the startup announcement and the notification listener.
//! Reading input lines, writing frames, and the node collaborators
//! (header verifier, chain service, notification bus) live outside and
//! talk to the library through plain values.

pub mod driver;
pub mod errors;
pub mod frame;
pub mod hex;
pub mod pipeline;
