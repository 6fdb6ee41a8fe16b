//! Core of a Win32 user-mode emulator: the x86 register file, the emulated
//! byte memory, the kernel32 address-space mappings, the shim table through
//! which emulated code calls host handlers, and the machine that ties them
//! together.

pub mod machine;
pub mod mappings;
pub mod memory;
pub mod shims;
pub mod winapi;
pub mod x86;
