//! Logic of the desktop shell: its configuration and the status line.

pub mod config;
pub mod status;
