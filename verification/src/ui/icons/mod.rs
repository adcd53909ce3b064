//! Small pictures drawn in the status bar.

pub mod battery;
