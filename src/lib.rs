//! Discovery of the default audio input device and toggling of its mute
//! state, over the property protocol of the host audio subsystem.
//!
//! The library holds the decisions: which property to query, how a reply is
//! judged, and what is written back. The calls into the audio subsystem are
//! made by the caller, which performs each `Request` that the toggle protocol
//! hands out and feeds the `Reply` back in.

pub mod accessor;
pub mod address;
pub mod simulation;
pub mod toggle;
