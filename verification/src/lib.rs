//! Core of a TeamSpeak bot that announces jungle camps and zeal in Where Winds Meet guild wars.
//!
//! The library decides what is said and played, and when; sending, sleeping and drawing is left
//! to the program around it.

pub mod audio;
pub mod bot;
pub mod bot_laws;
pub mod bot_runs;
pub mod clock;
pub mod command;
pub mod command_laws;
pub mod config;
pub mod gui;
pub mod identity;
pub mod number;
pub mod schedule;
pub mod text;
pub mod timer;
pub mod timer_laws;
pub mod ts3;
