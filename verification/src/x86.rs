//! The x86 register file and stack operations of the emulated CPU.

use vstd::prelude::*;

use crate::memory::{write_u32, Mem};

verus! {

/// Size of the region at address 0 that is kept unmapped so that null
/// pointer dereferences in emulated code fault.
pub const NULL_POINTER_REGION_SIZE: u32 = 0x1000;

/// The 32-bit registers of the emulated CPU.
#[derive(Clone, Copy, Debug, PartialEq, Eq, Structural)]
pub struct Registers {
    pub eax: u32,
    pub ecx: u32,
    pub edx: u32,
    pub ebx: u32,
    pub esp: u32,
    pub ebp: u32,
    pub esi: u32,
    pub edi: u32,
    pub eip: u32,
    /// Base address of the fs segment (points at the thread environment block).
    pub fs_addr: u32,
}

impl Registers {
    /// The register file with every register cleared.
    pub open spec fn new_spec() -> Registers {
        Registers {
                eax: 0,
                ecx: 0,
                edx: 0,
                ebx: 0,
                esp: 0,
                ebp: 0,
                esi: 0,
                edi: 0,
                eip: 0,
                fs_addr: 0,
        }
    }

    /// All registers cleared.
    pub fn new() -> (r: Registers)
        ensures
            r == Registers::new_spec(),
    {
        Registers { eax: 0, ecx: 0, edx: 0, ebx: 0, esp: 0, ebp: 0, esi: 0, edi: 0, eip: 0, fs_addr: 0 }
    }
}

/// The CPU state of the emulated processor.
pub struct CPU {
    pub regs: Registers,
}

/// The x86 emulator's state.
pub struct X86 {
    pub cpu: CPU,
}

impl X86 {
    /// A processor with all registers cleared.
    pub fn new() -> (x: X86)
        ensures
            x.cpu.regs == Registers::new_spec(),
    {
        X86 { cpu: CPU { regs: Registers::new() } }
    }
}

/// Pushes `value` on the emulated stack: `esp` moves down by four bytes and
/// `value` is stored little-endian at the new `esp`.
pub fn push(x86: &mut X86, mem: &mut Mem, value: u32)
    requires
        4 <= old(x86).cpu.regs.esp,
        old(x86).cpu.regs.esp <= old(mem)@.len(),
    ensures
        final(x86).cpu.regs == (Registers { esp: (old(x86).cpu.regs.esp - 4) as u32, ..old(x86).cpu.regs }),
        final(mem)@ == write_u32(old(mem)@, old(x86).cpu.regs.esp - 4, value),
{
    x86.cpu.regs.esp = x86.cpu.regs.esp - 4;
    mem.put_u32(x86.cpu.regs.esp, value);
}

} // verus!
