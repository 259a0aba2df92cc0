//! Per-function-code request handlers.

pub mod coils;
pub mod regs;
