//! The emulated machine: CPU, memory, system DLL state and shim table.

use std::collections::HashMap;

use vstd::prelude::*;

use crate::mappings::{alloc_fits, alloc_slot, allocated, mappings_wf, round_up_to_page, Mapping};
use crate::memory::{grown, u32_at, Mem};
use crate::shims::{async_call, async_called, become_async, shim_index, Shims, X86Future, SHIM_BASE};
use crate::winapi;
use crate::winapi::kernel32::DLL;
use crate::x86::{Registers, X86, NULL_POINTER_REGION_SIZE};

verus! {

/// A machine: the emulator `Emu` (`X86` for the x86 emulator, `()` for native
/// execution), memory, system DLL state, the shim table holding host
/// handlers `H`, and pending futures `F`.
pub struct MachineX<Emu, H, F> {
    pub emu: Emu,
    pub memory: Mem,
    pub state: winapi::State,
    pub shims: Shims<H, F>,
    /// Symbolic names of addresses, for debugging.
    pub labels: HashMap<u32, String>,
}

/// The addresses an executable was started with.
pub struct LoadedAddrs {
    pub entry_point: u32,
    pub stack_pointer: u32,
}

/// What the PE loader reports about a loaded executable.
pub struct ExeImage {
    pub entry_point: u32,
    /// Bytes of stack the executable asks for.
    pub stack_size: u32,
}

/// Why a shim call cannot be carried out.
#[derive(Debug, PartialEq, Eq, Structural)]
pub enum ShimError {
    /// eip is a shim address with no implemented handler.
    Unhandled(u32),
    /// The return address at this esp is outside memory, or popping the
    /// handler's stack bytes would overflow esp.
    StackOutOfBounds(u32),
}

/// The DllMains still to run before an executable starts, in order, and the
/// entry point to jump to afterwards.
pub struct DllInit {
    dll_mains: Vec<u32>,
    next: usize,
    entry_point: u32,
}

impl DllInit {
    /// The DllMains to run, in order.
    pub closed spec fn mains(&self) -> Seq<u32> {
        self.dll_mains@
    }

    /// How many of them have been started.
    pub closed spec fn started(&self) -> int {
        self.next as int
    }

    /// Where execution continues once all DllMains have run.
    pub closed spec fn entry(&self) -> u32 {
        self.entry_point
    }

    /// A sequence that runs `dll_mains` in order, then jumps to `entry_point`.
    pub fn new(dll_mains: Vec<u32>, entry_point: u32) -> (d: DllInit)
        ensures
            d.mains() == dll_mains@,
            d.started() == 0,
            d.entry() == entry_point,
    {
        DllInit { dll_mains, next: 0, entry_point }
    }

    /// Whether every DllMain has been started.
    pub fn is_done(&self) -> (done: bool)
        ensures
            done == (self.started() >= self.mains().len()),
    {
        self.next >= self.dll_mains.len()
    }
}

/// A stack of `size` bytes can be mapped into `ms`.
pub open spec fn stack_fits(ms: Seq<Mapping>, size: u32) -> bool {
    size > 0 && alloc_fits(ms, size)
}

/// The initial stack pointer for a stack of `size` bytes mapped into `ms`:
/// the last 32-bit slot of the new region.
pub open spec fn stack_top(ms: Seq<Mapping>, size: u32) -> int {
    match alloc_slot(ms, size) {
        Some((idx, a)) => a + round_up_to_page(size) - 4,
        None => 0,
    }
}

/// The entry points of the DLLs in `dlls` that have a DllMain, in load order.
pub open spec fn dll_mains(dlls: Seq<DLL>) -> Seq<u32>
    decreases dlls.len(),
{
    if dlls.len() == 0 {
        seq![]
    } else if dlls.last().entry_point != 0 {
        dll_mains(dlls.drop_last()).push(dlls.last().entry_point)
    } else {
        dll_mains(dlls.drop_last())
    }
}

/// The loaded DLLs that have a DllMain (a non-zero entry point), in load order.
pub open spec fn with_dll_main(dlls: Seq<DLL>) -> Seq<DLL> {
    dlls.filter(|d: DLL| d.entry_point != 0)
}

/// The DllMains run at start-up are exactly the non-zero entry points of the
/// loaded DLLs, in load order: there is one per DLL that has a DllMain, the
/// `i`-th is the entry point of the `i`-th such DLL, and the DLL at index
/// `j` with a DllMain is called after exactly the DLLs before it that have one.
pub proof fn lemma_dll_mains_are_nonzero_entries(dlls: Seq<DLL>)
    ensures
        dll_mains(dlls).len() == with_dll_main(dlls).len(),
        forall|i: int|
            0 <= i < dll_mains(dlls).len() ==> #[trigger] dll_mains(dlls)[i] == with_dll_main(dlls)[i].entry_point,
        forall|i: int| 0 <= i < dll_mains(dlls).len() ==> #[trigger] dll_mains(dlls)[i] != 0,
        forall|j: int|
            0 <= j < dlls.len() && (#[trigger] dlls[j]).entry_point != 0 ==> {
                &&& with_dll_main(dlls.take(j)).len() < dll_mains(dlls).len()
                &&& dll_mains(dlls)[with_dll_main(dlls.take(j)).len() as int] == dlls[j].entry_point
            },
    decreases dlls.len(),
{
    reveal_with_fuel(Seq::filter, 1);
    if dlls.len() > 0 {
        let rest = dlls.drop_last();
        lemma_dll_mains_are_nonzero_entries(rest);
        assert forall|j: int| 0 <= j < dlls.len() && (#[trigger] dlls[j]).entry_point != 0 implies {
            &&& with_dll_main(dlls.take(j)).len() < dll_mains(dlls).len()
            &&& dll_mains(dlls)[with_dll_main(dlls.take(j)).len() as int] == dlls[j].entry_point
        } by {
            if j < dlls.len() - 1 {
                assert(dlls.take(j) =~= rest.take(j));
                assert(rest[j] == dlls[j]);
            } else {
                assert(dlls.take(j) =~= rest);
            }
        }
    }
}

/// `d` is the start of a start-up sequence: it runs `mains` in order, has
/// started none of them yet, and then jumps to `entry`.
pub open spec fn fresh_dll_init(d: DllInit, mains: Seq<u32>, entry: u32) -> bool {
    &&& d.mains() == mains
    &&& d.started() == 0
    &&& d.entry() == entry
}

/// Arguments passed to each DllMain: hInstance, fdwReason
/// (DLL_PROCESS_ATTACH) and lpvReserved.
pub open spec fn dll_main_args() -> Seq<u32> {
    seq![0u32, 1u32, 0u32]
}

impl<H, F> MachineX<X86, H, F> {
    /// A fresh emulated machine: cleared registers, empty memory, only the
    /// null-pointer guard region mapped, and a shim table holding only the
    /// async executor `async_executor`.
    pub fn new(cmdline: String, async_executor: H) -> (m: Self)
        ensures
            m.emu.cpu.regs == Registers::new_spec(),
            m.memory@.len() == 0,
            m.state.kernel32.mappings@.len() == 1,
            m.state.kernel32.mappings@[0].addr == 0,
            m.state.kernel32.mappings@[0].size == NULL_POINTER_REGION_SIZE,
            m.state.kernel32.mappings@[0].desc@ == "avoid null pointers"@,
            mappings_wf(m.state.kernel32.mappings@),
            m.state.kernel32.teb == 0,
            m.state.kernel32.dlls@.len() == 0,
            m.state.kernel32.cmdline == cmdline,
            m.shims.entries().len() == 1,
            m.shims.entries()[0].name@ == "retrowin32 async helper"@,
            m.shims.entries()[0].handler == Some(async_executor),
            m.shims.executor_addr() == SHIM_BASE,
            m.shims.pending() is None,
            m.labels@ == Map::<u32, String>::empty(),
    {
        let memory = Mem::new();
        let kernel32 = winapi::kernel32::State::new(cmdline);
        let shims = Shims::new(async_executor);
        let state = winapi::State::new(kernel32);
        MachineX { emu: X86::new(), memory, state, shims, labels: HashMap::new() }
    }

    /// Maps a stack of `stack_size` bytes and points esp and ebp at its last
    /// 32-bit slot, which is returned.
    fn setup_stack(&mut self, stack_size: u32) -> (sp: u32)
        requires
            stack_fits(old(self).state.kernel32.mappings@, stack_size),
        ensures
            ({
                let ms = old(self).state.kernel32.mappings@;
                &&& sp == stack_top(ms, stack_size)
                &&& allocated(ms, final(self).state.kernel32.mappings@, stack_size, "stack"@)
                &&& final(self).memory@ == grown(old(self).memory@, (sp + 4) as nat)
                &&& final(self).emu.cpu.regs == (Registers { esp: sp, ebp: sp, ..old(self).emu.cpu.regs })
                &&& final(self).state.kernel32.teb == old(self).state.kernel32.teb
                &&& final(self).state.kernel32.dlls == old(self).state.kernel32.dlls
                &&& final(self).state.kernel32.cmdline == old(self).state.kernel32.cmdline
                &&& final(self).shims == old(self).shims
                &&& final(self).labels == old(self).labels
            }),
    {
        let stack = self.state.kernel32.mappings.allocate(stack_size, "stack".to_owned(), &mut self.memory);
        let stack = stack.unwrap();
        assert(round_up_to_page(stack_size) >= 0x1000) by (nonlinear_arith)
            requires stack_size > 0;
        let stack_pointer = (stack.addr as u64 + stack.size as u64 - 4) as u32;
        self.emu.cpu.regs.esp = stack_pointer;
        self.emu.cpu.regs.ebp = stack_pointer;
        stack_pointer
    }

    /// Entry points of the loaded DLLs that have a DllMain, in load order.
    fn dll_main_entries(&self) -> (v: Vec<u32>)
        ensures
            v@ == dll_mains(self.state.kernel32.dlls@),
    {
        let dlls = &self.state.kernel32.dlls;
        let mut v = Vec::new();
        let mut i: usize = 0;
        while i < dlls.len()
            invariant
                i <= dlls@.len(),
                v@ == dll_mains(dlls@.take(i as int)),
            decreases dlls@.len() - i,
        {
            proof {
                assert(dlls@.take(i + 1).drop_last() =~= dlls@.take(i as int));
                assert(dlls@.take(i + 1).last() == dlls@[i as int]);
            }
            if dlls[i].entry_point != 0 {
                v.push(dlls[i].entry_point);
            }
            i = i + 1;
        }
        assert(dlls@.take(dlls@.len() as int) =~= dlls@);
        v
    }

    /// Starts an executable that the PE loader has mapped: maps its stack,
    /// points fs at the thread environment block and sets up the initial
    /// registers.  When no loaded DLL has a DllMain, eip is set to the entry
    /// point.  Otherwise control goes to the async executor: eip is set to its
    /// address and the future that `dll_init_future` makes from the start-up
    /// sequence (the DllMains in load order, then the entry point; see
    /// `step_dll_init`) becomes the pending future.
    pub fn load_exe<G: FnOnce(DllInit) -> F>(&mut self, exe: &ExeImage, dll_init_future: G) -> (addrs: LoadedAddrs)
        requires
            stack_fits(old(self).state.kernel32.mappings@, exe.stack_size),
            forall|d: DllInit| call_requires(dll_init_future, (d,)),
        ensures
            ({
                let mains = dll_mains(old(self).state.kernel32.dlls@);
                let ms = old(self).state.kernel32.mappings@;
                let sp = stack_top(ms, exe.stack_size);
                let entry = exe.entry_point;
                &&& addrs.entry_point == entry
                &&& addrs.stack_pointer == sp
                &&& sp + 4 <= final(self).memory@.len()
                &&& allocated(ms, final(self).state.kernel32.mappings@, exe.stack_size, "stack"@)
                &&& final(self).memory@ == grown(old(self).memory@, (sp + 4) as nat)
                &&& final(self).emu.cpu.regs == (Registers {
                    esp: sp as u32,
                    ebp: sp as u32,
                    fs_addr: old(self).state.kernel32.teb,
                    ecx: entry,
                    edx: entry,
                    esi: entry,
                    edi: entry,
                    eip: if mains.len() == 0 { entry } else { old(self).shims.executor_addr() },
                    ..old(self).emu.cpu.regs
                })
                &&& mains.len() == 0 ==> final(self).shims == old(self).shims
                &&& mains.len() > 0 ==> {
                    &&& exists|d: DllInit, f: F|
                        #![trigger call_ensures(dll_init_future, (d,), f)]
                        final(self).shims.pending() == Some(f) && fresh_dll_init(d, mains, entry)
                            && call_ensures(dll_init_future, (d,), f)
                    &&& final(self).shims.entries() == old(self).shims.entries()
                    &&& final(self).shims.executor_addr() == old(self).shims.executor_addr()
                }
                &&& final(self).state.kernel32.teb == old(self).state.kernel32.teb
                &&& final(self).state.kernel32.dlls == old(self).state.kernel32.dlls
                &&& final(self).state.kernel32.cmdline == old(self).state.kernel32.cmdline
                &&& final(self).labels == old(self).labels
            }),
    {
        let stack_pointer = self.setup_stack(exe.stack_size);
        self.emu.cpu.regs.fs_addr = self.state.kernel32.teb;

        // To make CPU traces match more closely, set up some registers to what their
        // initial values appear to be from looking in a debugger.
        self.emu.cpu.regs.ecx = exe.entry_point;
        self.emu.cpu.regs.edx = exe.entry_point;
        self.emu.cpu.regs.esi = exe.entry_point;
        self.emu.cpu.regs.edi = exe.entry_point;

        let entries = self.dll_main_entries();
        if entries.len() == 0 {
            self.emu.cpu.regs.eip = exe.entry_point;
        } else {
            // Invoke any DllMains then jump to the entry point.
            let init = DllInit::new(entries, exe.entry_point);
            let ghost d = init;
            let future = dll_init_future(init);
            become_async(self, future);
            assert(fresh_dll_init(d, dll_mains(old(self).state.kernel32.dlls@), exe.entry_point));
            assert(call_ensures(dll_init_future, (d,), future));
            assert(self.shims.pending() == Some(future));
        }
        LoadedAddrs { entry_point: exe.entry_point, stack_pointer }
    }

    /// The handler a jump to eip calls: `Ok(None)` when eip is outside the
    /// shim range, the handler when eip is a shim address with an implemented
    /// handler, and `Unhandled` otherwise.
    pub fn shim_handler(&self) -> (r: Result<Option<&H>, ShimError>)
        ensures
            self.emu.cpu.regs.eip & 0xFFFF_0000 != SHIM_BASE ==> r == Ok::<Option<&H>, ShimError>(None),
            self.emu.cpu.regs.eip & 0xFFFF_0000 == SHIM_BASE ==> {
                let idx = shim_index(self.emu.cpu.regs.eip);
                let entries = self.shims.entries();
                match r {
                    Ok(Some(h)) => idx < entries.len() && entries[idx].handler == Some(*h),
                    Ok(None) => false,
                    Err(e) => e == ShimError::Unhandled(self.emu.cpu.regs.eip) && !(idx < entries.len()
                        && entries[idx].handler is Some),
                }
            },
    {
        let eip = self.emu.cpu.regs.eip;
        if eip & 0xFFFF_0000 != SHIM_BASE {
            return Ok(None);
        }
        match self.shims.get(eip) {
            Some(handler) => Ok(Some(handler)),
            None => Err(ShimError::Unhandled(eip)),
        }
    }

    /// Completes a shim call after its handler returned `ret`.  An async
    /// handler manages the return address itself, so nothing changes.  A
    /// synchronous one returns to the caller as `return_from_shim` does,
    /// unless the return address at esp lies outside memory or releasing
    /// `stack_consumed` bytes would overflow esp; then nothing changes.
    pub fn finish_shim_call(&mut self, is_async: bool, stack_consumed: u32, ret: u32) -> (r: Result<(), ShimError>)
        ensures
            ({
                let esp = old(self).emu.cpu.regs.esp;
                let in_bounds = esp + 4 <= old(self).memory@.len() && esp + stack_consumed <= u32::MAX;
                &&& is_async ==> r is Ok && *final(self) == *old(self)
                &&& !is_async && !in_bounds ==> r == Err::<(), ShimError>(ShimError::StackOutOfBounds(esp))
                    && *final(self) == *old(self)
                &&& !is_async && in_bounds ==> {
                    &&& r is Ok
                    &&& final(self).emu.cpu.regs == (Registers {
                        eip: u32_at(old(self).memory@, esp as int),
                        esp: (esp + stack_consumed) as u32,
                        eax: ret,
                        ..old(self).emu.cpu.regs
                    })
                    &&& final(self).memory == old(self).memory
                    &&& final(self).state == old(self).state
                    &&& final(self).shims == old(self).shims
                    &&& final(self).labels == old(self).labels
                }
            }),
    {
        if is_async {
            // Async handler will manage the return address etc.
            return Ok(());
        }
        let esp = self.emu.cpu.regs.esp;
        if esp as usize > self.memory.len() || self.memory.len() - (esp as usize) < 4 || esp > u32::MAX - stack_consumed {
            return Err(ShimError::StackOutOfBounds(esp));
        }
        self.return_from_shim(stack_consumed, ret);
        Ok(())
    }

    /// Returns from a synchronous shim call: pops the return address into eip,
    /// releases the `stack_consumed` bytes of return address and arguments,
    /// and stores the handler's result `ret` in eax.
    pub fn return_from_shim(&mut self, stack_consumed: u32, ret: u32)
        requires
            old(self).emu.cpu.regs.esp + 4 <= old(self).memory@.len(),
            old(self).emu.cpu.regs.esp + stack_consumed <= u32::MAX,
        ensures
            final(self).emu.cpu.regs == (Registers {
                eip: u32_at(old(self).memory@, old(self).emu.cpu.regs.esp as int),
                esp: (old(self).emu.cpu.regs.esp + stack_consumed) as u32,
                eax: ret,
                ..old(self).emu.cpu.regs
            }),
            final(self).memory == old(self).memory,
            final(self).state == old(self).state,
            final(self).shims == old(self).shims,
            final(self).labels == old(self).labels,
    {
        self.emu.cpu.regs.eip = self.memory.get_u32(self.emu.cpu.regs.esp);
        self.emu.cpu.regs.esp = self.emu.cpu.regs.esp + stack_consumed;
        self.emu.cpu.regs.eax = ret;
    }
}

impl<H, F> MachineX<(), H, F> {
    /// A fresh machine for native execution: empty memory except for the
    /// 0x4000-byte region that holds the x86-64 trampolines of the shims,
    /// mapped right after the null-pointer guard region.
    pub fn new(cmdline: String, async_executor: H) -> (m: Self)
        ensures
            m.state.kernel32.mappings@.len() == 2,
            m.state.kernel32.mappings@[0].addr == 0,
            m.state.kernel32.mappings@[0].size == NULL_POINTER_REGION_SIZE,
            m.state.kernel32.mappings@[0].desc@ == "avoid null pointers"@,
            m.state.kernel32.mappings@[1].addr == 0x1000,
            m.state.kernel32.mappings@[1].size == 0x4000,
            m.state.kernel32.mappings@[1].desc@ == "shims x64 trampoline"@,
            mappings_wf(m.state.kernel32.mappings@),
            m.memory@ == grown(Seq::<u8>::empty(), 0x5000),
            m.state.kernel32.teb == 0,
            m.state.kernel32.dlls@.len() == 0,
            m.state.kernel32.cmdline == cmdline,
            m.shims.entries().len() == 1,
            m.shims.entries()[0].name@ == "retrowin32 async helper"@,
            m.shims.entries()[0].handler == Some(async_executor),
            m.shims.executor_addr() == SHIM_BASE,
            m.shims.pending() is None,
            m.labels@ == Map::<u32, String>::empty(),
    {
        let mut memory = Mem::new();
        let mut kernel32 = winapi::kernel32::State::new(cmdline);
        proof {
            reveal_with_fuel(crate::mappings::find_space, 3);
            assert(round_up_to_page(0x4000) == 0x4000);
            assert(alloc_slot(kernel32.mappings@, 0x4000) == Some((1int, 0x1000int)));
        }
        let mapping = kernel32.mappings.allocate(0x4000, "shims x64 trampoline".to_owned(), &mut memory);
        assert(mapping is Some);
        let shims = Shims::new(async_executor);
        let state = winapi::State::new(kernel32);
        MachineX { emu: (), memory, state, shims, labels: HashMap::new() }
    }

    /// Starts an executable that the PE loader has mapped: maps its stack and
    /// returns the start addresses.
    pub fn load_exe(&mut self, exe: &ExeImage) -> (addrs: LoadedAddrs)
        requires
            stack_fits(old(self).state.kernel32.mappings@, exe.stack_size),
        ensures
            ({
                let ms = old(self).state.kernel32.mappings@;
                let sp = stack_top(ms, exe.stack_size);
                &&& addrs.entry_point == exe.entry_point
                &&& addrs.stack_pointer == sp
                &&& allocated(ms, final(self).state.kernel32.mappings@, exe.stack_size, "stack"@)
                &&& final(self).memory@ == grown(old(self).memory@, (sp + 4) as nat)
                &&& final(self).state.kernel32.teb == old(self).state.kernel32.teb
                &&& final(self).state.kernel32.dlls == old(self).state.kernel32.dlls
                &&& final(self).state.kernel32.cmdline == old(self).state.kernel32.cmdline
                &&& final(self).shims == old(self).shims
                &&& final(self).labels == old(self).labels
            }),
    {
        let stack = self.state.kernel32.mappings.allocate(exe.stack_size, "stack".to_owned(), &mut self.memory);
        let stack = stack.unwrap();
        assert(round_up_to_page(exe.stack_size) >= 0x1000) by (nonlinear_arith)
            requires exe.stack_size > 0;
        let stack_pointer = (stack.addr as u64 + stack.size as u64 - 4) as u32;
        LoadedAddrs { entry_point: exe.entry_point, stack_pointer }
    }
}

/// A return address pushed on the stack is what a shim return pops: after
/// `push(v)`, the word at the new esp is `v`, and releasing four bytes brings
/// esp back to where it was.
pub proof fn lemma_push_then_pop(
    regs0: Registers,
    mem0: Seq<u8>,
    regs1: Registers,
    mem1: Seq<u8>,
    v: u32,
)
    requires
        4 <= regs0.esp,
        regs0.esp <= mem0.len(),
        regs1 == (Registers { esp: (regs0.esp - 4) as u32, ..regs0 }),
        mem1 == crate::memory::write_u32(mem0, regs0.esp - 4, v),
    ensures
        regs1.esp + 4 <= mem1.len(),
        u32_at(mem1, regs1.esp as int) == v,
        regs1.esp + 4 == regs0.esp,
{
    crate::memory::lemma_read_after_write(mem0, regs0.esp - 4, v, 0);
}

/// Runs the start-up sequence one step at a time: starts the next DllMain
/// and returns its future, or, once every DllMain has been started (and, as
/// the caller awaits each future, has returned), jumps to the entry point
/// and returns `None`.
pub fn step_dll_init<H, F>(machine: &mut MachineX<X86, H, F>, init: &mut DllInit) -> (r: Option<X86Future>)
    requires
        old(init).started() < old(init).mains().len() ==> 16 <= old(machine).emu.cpu.regs.esp
            <= old(machine).memory@.len(),
    ensures
        final(init).mains() == old(init).mains(),
        final(init).entry() == old(init).entry(),
        old(init).started() < old(init).mains().len() ==> {
            &&& r matches Some(fut) && async_called(
                *old(machine),
                *final(machine),
                old(init).mains()[old(init).started()],
                dll_main_args(),
                fut,
            )
            &&& final(init).started() == old(init).started() + 1
        },
        old(init).started() >= old(init).mains().len() ==> {
            &&& r is None
            &&& final(init).started() == old(init).started()
            &&& final(machine).emu.cpu.regs == (Registers { eip: old(init).entry(), ..old(machine).emu.cpu.regs })
            &&& final(machine).memory == old(machine).memory
            &&& final(machine).state == old(machine).state
            &&& final(machine).shims == old(machine).shims
            &&& final(machine).labels == old(machine).labels
        },
{
    if init.next < init.dll_mains.len() {
        let dll_main = init.dll_mains[init.next];
        init.next = init.next + 1;
        Some(call_dll_main(machine, dll_main))
    } else {
        machine.emu.cpu.regs.eip = init.entry_point;
        None
    }
}

/// Starts the DllMain at `dll_main` for process attach; the returned future
/// completes when it has returned.
pub fn call_dll_main<H, F>(machine: &mut MachineX<X86, H, F>, dll_main: u32) -> (fut: X86Future)
    requires
        16 <= old(machine).emu.cpu.regs.esp,
        old(machine).emu.cpu.regs.esp <= old(machine).memory@.len(),
    ensures
        async_called(*old(machine), *final(machine), dll_main, dll_main_args(), fut),
{
    let h_instance: u32 = 0;
    let fdw_reason: u32 = 1;  // DLL_PROCESS_ATTACH
    let lpv_reserved: u32 = 0;
    let args = vec![h_instance, fdw_reason, lpv_reserved];
    assert(args@ == dll_main_args());
    async_call(machine, dll_main, args)
}

} // verus!
