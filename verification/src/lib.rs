//! An interpreter for the CHIP-8 virtual machine.
//!
//! The crate holds the machine's state and the rules by which it changes:
//! a byte-addressed memory, a monochrome pixel grid, and a processor that
//! fetches, decodes and executes one instruction at a time. Every function
//! carries a contract over a mathematical model of that state.

pub mod error;
pub mod globals;
pub mod instruction;
pub mod memory;
pub mod render_table;
pub mod semantics;
pub mod sprite;
pub mod theorems;
pub mod virtual_machine;
pub mod virtual_processor;
