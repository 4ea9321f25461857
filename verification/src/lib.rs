//! Core of a single-track audio player.
//!
//! The heart of the crate is a command-driven playback engine: it demultiplexes
//! a container, decodes compressed packets, resamples to the output device's
//! native rate when needed, and feeds a bounded single-producer single-consumer
//! ring buffer drained by a real-time audio callback.  Around the engine stand
//! the music library, playlists and the controller-side player state.
//!
//! Everything that decides — state transitions, trim thresholds, buffer
//! sizing, retry bounds, frame accounting — lives here with a contract.
//! Device I/O, file probing and the floating-point signal path are left to the
//! host program, which hands the results back as plain values.

pub mod channels;
pub mod engine;
pub mod i18n;
pub mod library;
pub mod loader;
pub mod output;
pub mod player;
pub mod playlist;
pub mod resampler;
