//! Monitoring of a pellets burner's error signal and composition of the
//! notifications that are pushed when the burner fails, stays failed, or
//! manages (or fails) to start back up.

pub mod backend;
pub mod cli;
pub mod compose;
pub mod config;
pub mod context;
pub mod defaults;
pub mod message;
pub mod monitor;
pub mod notify;
pub mod settings;
pub mod setup;
pub mod source;
pub mod text;
pub mod time;
