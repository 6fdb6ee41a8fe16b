//! State of the emulated kernel32.dll: the address-space mappings, the thread
//! environment block and the DLLs loaded into the process.

use vstd::prelude::*;

use crate::mappings::{mappings_wf, Mappings};
use crate::x86::NULL_POINTER_REGION_SIZE;

verus! {

/// A DLL loaded into the emulated process.
pub struct DLL {
    pub name: String,
    /// Address of the DLL's DllMain, or 0 if it has none.
    pub entry_point: u32,
}

/// kernel32's view of the process.
pub struct State {
    pub mappings: Mappings,
    /// Address of the thread environment block.
    pub teb: u32,
    pub dlls: Vec<DLL>,
    pub cmdline: String,
}

impl State {
    /// A process with only the null-pointer guard region mapped, no DLLs
    /// loaded yet, and the given command line.
    pub fn new(cmdline: String) -> (s: State)
        ensures
            s.mappings@.len() == 1,
            s.mappings@[0].addr == 0,
            s.mappings@[0].size == NULL_POINTER_REGION_SIZE,
            s.mappings@[0].desc@ == "avoid null pointers"@,
            mappings_wf(s.mappings@),
            s.teb == 0,
            s.dlls@.len() == 0,
            s.cmdline == cmdline,
    {
        State { mappings: Mappings::new(), teb: 0, dlls: Vec::new(), cmdline }
    }
}

} // verus!
