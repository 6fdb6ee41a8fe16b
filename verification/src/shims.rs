//! "Shims" are the mechanism for x86 -> host (and back) calls.
//!
//! Host handlers, such as the implementation of kernel32.dll!ExitProcess, are
//! registered under special invalid x86 addresses.  If the x86 ever jumps to
//! such an address, the machine forwards the call to the registered handler.
//!
//! When a host handler needs to call back into x86 code, it runs as a pending
//! future: control is redirected to the async executor shim, which polls the
//! future each time the x86 code it started returns to it.

use vstd::prelude::*;

use crate::machine::MachineX;
use crate::memory::u32_at;
use crate::x86::{push, Registers, X86};

verus! {

/// Code that calls from x86 to the host will jump to addresses in this
/// magic range.
/// "fake IAT" => "FIAT" => "F1A7"
pub const SHIM_BASE: u32 = 0xF1A7_0000;

/// The address under which the shim at `index` is registered.
pub open spec fn shim_addr(index: int) -> u32 {
    SHIM_BASE | (index as u32)
}

/// The shim index that a jump to `addr` refers to.
pub open spec fn shim_index(addr: u32) -> int {
    (addr & 0xFFFF) as int
}

/// The address of the shim at `index` lies in the shim range and refers back
/// to `index`, for every index below 0x10000.
pub proof fn lemma_shim_addr_roundtrip(index: int)
    requires
        0 <= index < 0x10000,
    ensures
        shim_index(shim_addr(index)) == index,
        shim_addr(index) & 0xFFFF_0000 == SHIM_BASE,
{
    let i = index as u32;
    assert(i < 0x10000 ==> ((SHIM_BASE | i) & 0xFFFF) == i && ((SHIM_BASE | i) & 0xFFFF_0000)
        == SHIM_BASE) by (bit_vector);
}

/// Jumps to `SHIM_BASE + x` call entry `x`: for every index below 0x10000 the
/// shim address is the base plus the index, and the index read back from
/// `SHIM_BASE + x` is `x`.
pub proof fn lemma_shim_addr_is_offset(x: int)
    requires
        0 <= x < 0x10000,
    ensures
        shim_addr(x) == SHIM_BASE + x,
        shim_index((SHIM_BASE + x) as u32) == x,
{
    let i = x as u32;
    assert(i < 0x10000 ==> (SHIM_BASE | i) == SHIM_BASE + i && ((SHIM_BASE + i) as u32 & 0xFFFF) == i)
        by (bit_vector);
}

/// A registered host function.
pub struct Shim<H> {
    pub name: String,
    /// The host handler, or `None` for a function that is known but not implemented.
    pub handler: Option<H>,
}

/// Jumps to memory address SHIM_BASE+x are interpreted as calling shims[x].
/// This is how emulated code calls out to hosting code for e.g. DLL imports.
pub struct Shims<H, F> {
    /// The async executor, always registered first, so that its address is
    /// `SHIM_BASE`.
    async_executor: Shim<H>,
    /// The shims registered after it: `shims[i]` is entry `i + 1`.
    shims: Vec<Shim<H>>,
    /// Pending future for code being run by the async executor.
    future: Option<F>,
}

impl<H, F> Shims<H, F> {
    /// The registered shims, in registration order.
    pub closed spec fn entries(&self) -> Seq<Shim<H>> {
        seq![self.async_executor].add(self.shims@)
    }

    /// The address of the async executor shim.
    pub closed spec fn executor_addr(&self) -> u32 {
        SHIM_BASE
    }

    /// The future that the async executor polls next, if any.
    pub closed spec fn pending(&self) -> Option<F> {
        self.future
    }

    /// Every shim table starts with the async executor: it is never empty and
    /// the executor's address is `SHIM_BASE`, the address of entry 0.
    pub proof fn lemma_executor_first(&self)
        ensures
            self.entries().len() >= 1,
            self.executor_addr() == SHIM_BASE,
            shim_addr(0) == self.executor_addr(),
    {
        lemma_executor_addr();
    }

    /// A table holding only the async executor shim, registered first so that
    /// its address is `SHIM_BASE`.
    pub fn new(async_executor: H) -> (s: Self)
        ensures
            s.entries().len() == 1,
            s.entries()[0].name@ == "retrowin32 async helper"@,
            s.entries()[0].handler == Some(async_executor),
            s.executor_addr() == SHIM_BASE,
            s.pending() is None,
    {
        Shims {
            async_executor: Shim { name: "retrowin32 async helper".to_owned(), handler: Some(async_executor) },
            shims: Vec::new(),
            future: None,
        }
    }

    /// Registers a handler under `name` and returns its (fake) address.
    pub fn add(&mut self, name: String, handler: Option<H>) -> (id: u32)
        ensures
            id == shim_addr(old(self).entries().len() as int),
            old(self).entries().len() < 0x10000 ==> id == SHIM_BASE + old(self).entries().len(),
            final(self).entries() == old(self).entries().push(Shim { name, handler }),
            final(self).executor_addr() == old(self).executor_addr(),
            final(self).pending() == old(self).pending(),
    {
        let id = SHIM_BASE | (self.shims.len() as u128 + 1) as u32;
        proof {
            if old(self).entries().len() < 0x10000 {
                lemma_shim_addr_is_offset(old(self).entries().len() as int);
            }
        }
        self.shims.push(Shim { name, handler });
        assert(self.entries() =~= old(self).entries().push(Shim { name, handler }));
        id
    }

    /// The handler registered under `addr`, if there is one and it is implemented.
    pub fn get(&self, addr: u32) -> (r: Option<&H>)
        ensures
            SHIM_BASE <= addr < SHIM_BASE + 0x10000 ==> shim_index(addr) == addr - SHIM_BASE,
            match r {
                Some(h) => shim_index(addr) < self.entries().len() && self.entries()[shim_index(
                    addr,
                )].handler == Some(*h),
                None => !(shim_index(addr) < self.entries().len() && self.entries()[shim_index(
                    addr,
                )].handler is Some),
            },
    {
        proof {
            if SHIM_BASE <= addr < SHIM_BASE + 0x10000 {
                lemma_shim_addr_is_offset(addr - SHIM_BASE);
            }
        }
        let index = (addr & 0x0000_FFFF) as usize;
        let shim = if index == 0 {
            &self.async_executor
        } else if index - 1 < self.shims.len() {
            &self.shims[index - 1]
        } else {
            return None;
        };
        match &shim.handler {
            Some(handler) => Some(handler),
            None => None,
        }
    }

    /// The address of the first shim registered under `name`.
    pub fn lookup(&self, name: &str) -> (r: Option<u32>)
        ensures
            r is None <==> forall|j: int|
                0 <= j < self.entries().len() ==> #[trigger] self.entries()[j].name@ != name@,
            r matches Some(a) ==> exists|idx: int|
                {
                    &&& 0 <= idx < self.entries().len()
                    &&& #[trigger] self.entries()[idx].name@ == name@
                    &&& forall|j: int| 0 <= j < idx ==> #[trigger] self.entries()[j].name@ != name@
                    &&& a == shim_addr(idx)
                },
    {
        let target = name.to_owned();
        if self.async_executor.name == target {
            assert(self.entries()[0] == self.async_executor);
            return Some(SHIM_BASE | 0u32);
        }
        let n = self.shims.len();
        let mut i: usize = 0;
        while i < n
            invariant
                n == self.shims@.len(),
                i <= n,
                target@ == name@,
                self.entries().len() == n + 1,
                forall|j: int| 0 <= j <= i ==> #[trigger] self.entries()[j].name@ != name@,
            decreases n - i,
        {
            assert(self.entries()[i + 1] == self.shims@[i as int]);
            if self.shims[i].name == target {
                return Some(SHIM_BASE | (i as u128 + 1) as u32);
            }
            i = i + 1;
        }
        None
    }

    /// The address of the async executor shim.
    pub fn async_executor(&self) -> (a: u32)
        ensures
            a == self.executor_addr(),
            a == SHIM_BASE,
    {
        SHIM_BASE
    }

    /// Removes and returns the pending future, if any.
    pub fn take_future(&mut self) -> (r: Option<F>)
        ensures
            r == old(self).pending(),
            final(self).pending() is None,
            final(self).entries() == old(self).entries(),
            final(self).executor_addr() == old(self).executor_addr(),
    {
        self.future.take()
    }

    /// Stores `future` as the pending future if none is pending; returns
    /// whether it was stored.  Only one future can be pending at a time.
    pub fn park_future(&mut self, future: F) -> (stored: bool)
        ensures
            stored == (old(self).pending() is None),
            stored ==> final(self).pending() == Some(future),
            !stored ==> final(self).pending() == old(self).pending(),
            final(self).entries() == old(self).entries(),
            final(self).executor_addr() == old(self).executor_addr(),
    {
        if self.future.is_some() {
            false
        } else {
            self.future = Some(future);
            true
        }
    }
}

/// Jumps to `SHIM_BASE + x` call `shims[x]`: a handler registered with `add`
/// while fewer than 0x10000 shims exist is what `get` finds at the address
/// `add` returned, and that address is in the shim range.
pub proof fn lemma_add_then_get<H, F>(
    before: Shims<H, F>,
    after: Shims<H, F>,
    name: String,
    handler: Option<H>,
    id: u32,
)
    requires
        before.entries().len() < 0x10000,
        id == shim_addr(before.entries().len() as int),
        after.entries() == before.entries().push(Shim { name, handler }),
    ensures
        shim_index(id) == before.entries().len(),
        shim_index(id) < after.entries().len(),
        after.entries()[shim_index(id)].handler == handler,
        id & 0xFFFF_0000 == SHIM_BASE,
{
    lemma_shim_addr_roundtrip(before.entries().len() as int);
}

/// Looking up a name that was not registered before `add` gives the address
/// that `add` returned: that entry is the first one with the name, and any
/// index that `lookup` may report is that entry.
pub proof fn lemma_add_then_lookup<H, F>(
    before: Shims<H, F>,
    after: Shims<H, F>,
    name: String,
    handler: Option<H>,
    id: u32,
)
    requires
        forall|j: int| 0 <= j < before.entries().len() ==> #[trigger] before.entries()[j].name@ != name@,
        id == shim_addr(before.entries().len() as int),
        after.entries() == before.entries().push(Shim { name, handler }),
    ensures
        forall|idx: int|
            {
                &&& 0 <= idx < after.entries().len()
                &&& #[trigger] after.entries()[idx].name@ == name@
                &&& forall|j: int| 0 <= j < idx ==> #[trigger] after.entries()[j].name@ != name@
            } ==> shim_addr(idx) == id,
        after.entries()[before.entries().len() as int].name@ == name@,
{
    let n = before.entries().len() as int;
    assert forall|idx: int|
        {
            &&& 0 <= idx < after.entries().len()
            &&& #[trigger] after.entries()[idx].name@ == name@
            &&& forall|j: int| 0 <= j < idx ==> #[trigger] after.entries()[j].name@ != name@
        } implies shim_addr(idx) == id by {
        if idx < n {
            assert(after.entries()[idx] == before.entries()[idx]);
        }
    }
}

/// No shim registered after the async executor shares its address: every
/// index from 1 up to 0x10000 gives an address other than `SHIM_BASE`.
pub proof fn lemma_executor_addr_distinct(index: int)
    requires
        1 <= index < 0x10000,
    ensures
        shim_addr(index) != SHIM_BASE,
{
    lemma_shim_addr_roundtrip(index);
    lemma_shim_addr_roundtrip(0);
    assert(shim_addr(0) == SHIM_BASE) by {
        assert((SHIM_BASE | 0u32) == SHIM_BASE) by (bit_vector);
    }
}

/// The async executor is registered first, so its address is `SHIM_BASE`,
/// which is in the shim range and refers to the first entry.
pub proof fn lemma_executor_addr()
    ensures
        shim_index(SHIM_BASE) == 0,
        SHIM_BASE & 0xFFFF_0000 == SHIM_BASE,
        shim_addr(0) == SHIM_BASE,
{
    lemma_shim_addr_roundtrip(0);
    assert(shim_addr(0) == SHIM_BASE) by {
        assert((SHIM_BASE | 0u32) == SHIM_BASE) by (bit_vector);
    }
}

/// Redirects x86 control to the async executor, which will run `future`.
pub fn become_async<H, F>(machine: &mut MachineX<X86, H, F>, future: F)
    ensures
        final(machine).emu.cpu.regs == (Registers {
            eip: old(machine).shims.executor_addr(),
            ..old(machine).emu.cpu.regs
        }),
        final(machine).shims.pending() == Some(future),
        final(machine).shims.entries() == old(machine).shims.entries(),
        final(machine).shims.executor_addr() == old(machine).shims.executor_addr(),
        final(machine).memory == old(machine).memory,
        final(machine).state == old(machine).state,
        final(machine).labels == old(machine).labels,
{
    machine.emu.cpu.regs.eip = machine.shims.async_executor();
    machine.shims.future = Some(future);
}

/// A call into x86 code started by `async_call`.  It is complete once the
/// stack pointer is back at the value it had before the call.
pub struct X86Future {
    esp: u32,
}

impl X86Future {
    /// The stack pointer at which the call is complete.
    pub closed spec fn done_esp(&self) -> u32 {
        self.esp
    }

    /// The stack pointer at which the call is complete.
    pub fn esp(&self) -> (e: u32)
        ensures
            e == self.done_esp(),
    {
        self.esp
    }

    /// Whether the call has returned, given the machine's current stack pointer.
    pub fn is_complete(&self, esp: u32) -> (done: bool)
        ensures
            done == (esp == self.done_esp()),
    {
        esp == self.esp
    }
}

/// What `async_call(func, args)` does to a machine: `args` are pushed in
/// reverse order, then the async executor's address as the return address,
/// and execution continues at `func`.  Nothing else changes.
pub open spec fn async_called<H, F>(
    before: MachineX<X86, H, F>,
    after: MachineX<X86, H, F>,
    func: u32,
    args: Seq<u32>,
    fut: X86Future,
) -> bool {
    let esp0 = before.emu.cpu.regs.esp as int;
    let esp1 = esp0 - 4 * (args.len() + 1);
    &&& after.emu.cpu.regs == (Registers { esp: esp1 as u32, eip: func, ..before.emu.cpu.regs })
    &&& fut.done_esp() == esp0
    &&& after.emu.cpu.regs.esp < fut.done_esp()
    &&& after.memory@.len() == before.memory@.len()
    &&& u32_at(after.memory@, esp1) == before.shims.executor_addr()
    &&& forall|k: int| 0 <= k < args.len() ==> u32_at(after.memory@, esp1 + 4 + 4 * k) == #[trigger] args[k]
    &&& forall|b: int| 0 <= b < before.memory@.len() && !(esp1 <= b < esp0) ==> #[trigger] after.memory@[b]
        == before.memory@[b]
    &&& after.shims == before.shims
    &&& after.state == before.state
    &&& after.labels == before.labels
}

/// Starts a call from the host into the x86 function at `func` with `args`.
/// The returned future completes when the x86 function has returned.
pub fn async_call<H, F>(machine: &mut MachineX<X86, H, F>, func: u32, args: Vec<u32>) -> (fut: X86Future)
    requires
        4 * (args@.len() + 1) <= old(machine).emu.cpu.regs.esp,
        old(machine).emu.cpu.regs.esp <= old(machine).memory@.len(),
    ensures
        async_called(*old(machine), *final(machine), func, args@, fut),
{
    // Save original esp, as that's the marker that we use to know when the call is done.
    let esp = machine.emu.cpu.regs.esp;
    let ghost mem0 = machine.memory@;
    let ghost regs0 = machine.emu.cpu.regs;
    let ghost m0 = *machine;
    let n = args.len();
    let mut i = n;
    // Push the args in reverse order.
    while i > 0
        invariant
            i <= n,
            n == args@.len(),
            4 * (n + 1) <= esp,
            esp <= mem0.len(),
            esp == regs0.esp,
            machine.emu.cpu.regs == (Registers { esp: (esp - 4 * (n - i)) as u32, ..regs0 }),
            machine.memory@.len() == mem0.len(),
            machine.shims == m0.shims,
            machine.state == m0.state,
            machine.labels == m0.labels,
            forall|k: int| i <= k < n ==> u32_at(machine.memory@, esp - 4 * (n - k)) == #[trigger] args@[k],
            forall|b: int| 0 <= b < mem0.len() && !(esp - 4 * (n - i) <= b < esp) ==> #[trigger] machine.memory@[b]
                == mem0[b],
        decreases i,
    {
        let ghost mem_before = machine.memory@;
        let ghost sp = machine.emu.cpu.regs.esp as int;
        push(&mut machine.emu, &mut machine.memory, args[i - 1]);
        proof {
            crate::memory::lemma_read_after_write(mem_before, sp - 4, args@[i - 1], 0);
            assert forall|k: int| i - 1 <= k < n implies u32_at(machine.memory@, esp - 4 * (n - k)) == #[trigger] args@[k] by {
                if k > i - 1 {
                    crate::memory::lemma_read_after_write(mem_before, sp - 4, args@[i - 1], esp - 4 * (n - k));
                }
            }
            assert forall|b: int| 0 <= b < mem0.len() && !(esp - 4 * (n - (i - 1)) <= b < esp) implies #[trigger] machine.memory@[b]
                == mem0[b] by {
                crate::memory::lemma_read_after_write(mem_before, sp - 4, args@[i - 1], b);
            }
        }
        i = i - 1;
    }
    let ghost mem_before = machine.memory@;
    let ghost sp = machine.emu.cpu.regs.esp as int;
    let ret = machine.shims.async_executor();
    push(&mut machine.emu, &mut machine.memory, ret);  // return address
    proof {
        crate::memory::lemma_read_after_write(mem_before, sp - 4, ret, 0);
        assert forall|k: int| 0 <= k < n implies u32_at(machine.memory@, sp - 4 + 4 + 4 * k) == #[trigger] args@[k] by {
            crate::memory::lemma_read_after_write(mem_before, sp - 4, ret, esp - 4 * (n - k));
        }
        assert forall|b: int| 0 <= b < mem0.len() && !(sp - 4 <= b < esp) implies #[trigger] machine.memory@[b]
            == mem0[b] by {
            crate::memory::lemma_read_after_write(mem_before, sp - 4, ret, b);
        }
    }
    machine.emu.cpu.regs.eip = func;
    X86Future { esp }
}

} // verus!
