//! Molt library crate: the verified core of a terminal tool that manages
//! Python virtual environments and runs code inside them.

pub mod backend;
pub mod cli;
pub mod config;
pub mod domain;
pub mod error;
pub mod keymap;
pub mod paths;
pub mod pyfinder;
pub mod registry;
pub mod runner;
pub mod service;
pub mod text;
pub mod theme;
pub mod tui;
