//! The commands that the program runs.

pub mod check_ip;
pub mod clear;
pub mod txt;
pub mod update;
