//! Verified core of a simulator/emulator manager.
mod text;
pub mod error;
pub mod domain;
pub mod platform;
pub mod cli;
pub mod ui;
pub mod commands;
pub mod structs;
pub mod utils;
