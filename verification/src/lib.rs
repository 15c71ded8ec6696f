//! Controller core of a hotkey-driven transcription daemon.

pub mod bootstrap;
pub mod capture;
pub mod cli;
pub mod config;
pub mod controller;
pub mod doctor;
pub mod error;
pub mod history;
pub mod output;
pub mod text;
pub mod transcription;
pub mod runtime;
pub mod ui;
