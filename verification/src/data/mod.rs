//! Shared data-display pieces: buttons, chips, status pills and the context-window
//! meter.
pub mod button;
pub mod chip;
pub mod context_meter;
pub mod pill;
