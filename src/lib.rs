//! Argument handling and command planning for a small GPU overclocking tool.
//!
//! The library turns the raw command-line values into checked GPU selections
//! and per-GPU clock offsets, and decides which P-state clock writes each
//! command performs and which rows the GPU listing shows. Talking to the
//! hardware and printing are left to the program around it.
pub mod decimal;
pub mod args;
pub mod commands;
pub mod listing;
