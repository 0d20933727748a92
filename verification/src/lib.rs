//! An 8-bit processor whose control unit is driven by a microprogram.
//!
//! The machine has seven general registers, the control registers PC, IR,
//! MDR and MAR, a status register with four flags, two external switches, a
//! byte-addressed memory and a control store of microinstructions. One cycle
//! fetches the microinstruction at the control-store address, feeds two bus
//! sources through the ALU and the shifter, writes the result to a register,
//! makes at most one memory access, and finds the next control-store address.
//!
//! - [`micro_code`]: the microinstruction and the selectors it is made of.
//! - [`assemble`]: the packed 64-bit form of a microinstruction.
//! - [`alu`]: the ALU, the flags and the shifter.
//! - [`vm`]: the machine and its cycle.
//! - [`view`]: what a front end keeps beside the machine.

pub mod alu;
pub mod assemble;
pub mod micro_code;
pub mod view;
pub mod vm;
