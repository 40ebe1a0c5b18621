//! An instruction-set simulator for the RV32I base integer subset of RISC-V.
//!
//! The library decodes 32-bit instruction words into their per-format bit
//! fields, resolves opcode/funct selectors against closed operation catalogs,
//! and executes each instruction against a register file and a word-addressed
//! memory, with every step's effect on the architectural state stated in its
//! contract.
#![allow(non_snake_case)]
#![allow(non_camel_case_types)]

pub mod bittools;
pub mod catalog;
pub mod cpu;
pub mod decoder;
pub mod memory;
pub mod register;
