//! Core of a terminal video-catalog client: the playback control plane that
//! drives an in-process audio engine and an external video process, the
//! per-medium play queues, and the paged result sets that background fetches
//! extend while the interface reads them.
pub mod config;
pub mod data;
pub mod handlers;
pub mod media;
pub mod player;
pub mod queue;
pub mod results;
pub mod screens;
pub mod text;
pub mod views;
