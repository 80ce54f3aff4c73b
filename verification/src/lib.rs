//! An instruction-set simulator for the 64-bit RISC-V base integer
//! architecture.
//!
//! The emulator loads a statically linked executable into a flat guest
//! address space and executes its instructions one at a time until the
//! program counter reaches a sentinel address.
//!
//! - [`memory`] is a byte buffer with little-endian accesses, and [`bus`]
//!   routes guest addresses to the two regions that it owns.
//! - [`isa`] and [`machine`] say what the instruction set is: the fields and
//!   immediates of an instruction word, what each instruction does to the
//!   state of the processor, and what a cycle and a run are.
//! - [`cpu`] and [`rv`] are the processor and its instructions, proved to
//!   do what [`machine`] says.
//! - [`elf`] reads the executable and [`emulator`] puts the pieces together.
//! - [`shell`] reads the commands of the interactive mode.
//! - [`uart`] and [`cli`] are a serial port and the terminal behind it.

pub mod bus;
pub mod cli;
pub mod cpu;
pub mod elf;
pub mod emulator;
pub mod isa;
pub mod machine;
pub mod memory;
pub mod rv;
pub mod shell;
pub mod uart;
