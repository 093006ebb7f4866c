//! The decisions of an embedded flashing tool: what to do with the command line
//! and the configuration, which probe to open, when to flash and reset, how the
//! progress bars move, and how the RTT and GDB phases of a run follow each other.
//!
//! Everything here works on plain values. The program around it talks to the
//! probe, the terminal and the file system.
pub mod chip;
pub mod cli;
pub mod config;
pub mod course;
pub mod defmt;
pub mod elf;
pub mod flash;
pub mod probe;
pub mod report;
pub mod reset;
pub mod rtt;
pub mod rules;
pub mod session;
pub mod text;
