//! Startup planning for a single-window desktop shell.
//!
//! The process resolves its working directory, derives a cache directory
//! beneath it, and opens one window with a fixed configuration. This crate
//! holds that decision logic as verified functions over plain values; the
//! surrounding program reads the working directory and drives the windowing
//! framework with the plan produced here.

pub mod config;
pub mod path;
pub mod startup;
