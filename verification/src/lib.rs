//! Observes the operating system's single active media playback session and
//! exposes its state in two forms: a one-shot "now playing" line, and a live
//! two-line terminal dashboard fed by an ordered, bounded event stream.
//!
//! The platform glue (session discovery, property queries, change-notification
//! callbacks, clipboard, terminal output) lives outside this crate. The crate
//! itself holds the event types, the event bridge with its bounded drop-oldest
//! queue, and the incremental renderer, each with a proved contract.

pub mod bridge;
pub mod media_status;
pub mod ui;
