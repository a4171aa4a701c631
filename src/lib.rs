//! A CHIP-8 virtual machine: an instruction decoder and an execute engine
//! whose behaviour is stated over a mathematical model of the machine.
pub mod instruction;
pub mod display;
pub mod program;
pub mod laws;
