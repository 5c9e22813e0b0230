//! Memory subsystem of a handheld game console: the devices that back the
//! 16-bit address space, the bank controller of the cartridge, and the CPU
//! register file.
//!
//! Every device exposes the same narrow surface, [`memory_device::ReadWrite`]:
//! a membership test and byte and word reads and writes. What each operation
//! returns and how it changes the device is stated over the device's view, a
//! plain mathematical value.

pub mod memory_device;
pub mod timer;
pub mod input_output_registers;
pub mod internal_memory;
pub mod register;
pub mod cartridge_header;
pub mod cartridge;
pub mod bus;
