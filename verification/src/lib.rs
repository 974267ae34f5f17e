//! Verified core of a push-to-talk dictation tool: hotkey parsing, the model
//! catalog, settings, the decisions of the recording and download flows, and
//! the text that is handed to the system for insertion.

pub mod audio;
pub mod controller;
pub mod download;
pub mod hotkey;
pub mod laws;
pub mod model;
pub mod script;
pub mod settings;
pub mod text;
