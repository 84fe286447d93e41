//! A verified core for a desktop audio player: the playback sink model,
//! the player state machine, and playlist sequencing.
//!
//! The transport methods are what a control thread calls; the sink's
//! periodic control step is the renderer's side of the control block,
//! run by the host on its audio cadence. The host process owns the
//! device, the files and the OS media-control wiring, and acts only on
//! the decisions these types return.

pub mod common;
pub mod player;
pub mod playlist;
pub mod track;
