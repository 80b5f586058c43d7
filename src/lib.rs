//! Core pipelines of a live "now playing" visualizer: a rolling audio sample
//! history, the playback-state polling machine and what the display does
//! with each poll outcome.


pub mod ring;
pub mod spectrum;
pub mod config;
pub mod display;
pub mod format;
pub mod login;
pub mod poller;
pub mod state;
