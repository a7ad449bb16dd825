//! `ast`, a keyboard-driven terminal interface for Android development:
//! virtual and connected devices, Gradle tasks and per-device logcat
//! streams. This crate holds the state, the parsers and the decisions of the
//! program, each with its contract; the program around it performs the
//! processes, files and terminal drawing that they ask for.

pub mod android;
pub mod app;
pub mod cli;
pub mod control;
pub mod events;
pub mod handler;
pub mod laws;
pub mod model;
pub mod text;
pub mod ui;
