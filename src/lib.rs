//! Execution core of a PlayStation emulator: the R3000A register file and
//! step cycle, the segmented memory bus, breakpoints, and the scheduler that
//! runs the processor in bounded, frame-sized batches.

pub mod registers;
pub mod buffer;
pub mod mmio;
pub mod cpu;
pub mod breakpoints;
pub mod psx;
pub mod session;
pub mod config;
