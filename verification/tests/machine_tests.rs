use win32::machine::{call_dll_main, step_dll_init, DllInit, ExeImage, MachineX, ShimError};
use win32::shims::SHIM_BASE;
use win32::winapi::kernel32::DLL;
use win32::x86::X86;

type Machine = MachineX<X86, u32, DllInit>;

#[test]
fn new_machine_is_empty() {
    let m = Machine::new("app.exe".to_string(), 9);
    assert_eq!(m.emu.cpu.regs.eip, 0);
    assert_eq!(m.memory.len(), 0);
    assert_eq!(m.shims.get(SHIM_BASE), Some(&9));
    assert!(m.labels.is_empty());
    assert_eq!(m.state.kernel32.cmdline, "app.exe");
}

#[test]
fn load_exe_without_dlls_starts_at_entry_point() {
    let mut m = Machine::new("app.exe".to_string(), 0);
    m.state.kernel32.teb = 0x7000_0000;
    m.emu.cpu.regs.eax = 3;
    let addrs = m.load_exe(&ExeImage { entry_point: 0x401000, stack_size: 0x10000 }, |init| init);
    assert_eq!(addrs.entry_point, 0x401000);
    assert_eq!(addrs.stack_pointer, 0x1000 + 0x10000 - 4);
    assert!(m.shims.take_future().is_none());
    let r = &m.emu.cpu.regs;
    assert_eq!((r.esp, r.ebp), (0x10FFC, 0x10FFC));
    assert_eq!(r.eip, 0x401000);
    assert_eq!((r.ecx, r.edx, r.esi, r.edi), (0x401000, 0x401000, 0x401000, 0x401000));
    assert_eq!(r.fs_addr, 0x7000_0000);
    assert_eq!(r.eax, 3);
    assert_eq!(m.memory.len(), 0x11000);
    let stack = &m.state.kernel32.mappings.as_vec()[1];
    assert_eq!((stack.addr, stack.size), (0x1000, 0x10000));
    assert_eq!(stack.desc, "stack");
}

#[test]
fn load_exe_hands_dll_mains_to_the_async_executor() {
    let mut m = Machine::new("app.exe".to_string(), 0);
    m.state.kernel32.dlls.push(DLL { name: "a.dll".to_string(), entry_point: 0x1000_1000 });
    m.state.kernel32.dlls.push(DLL { name: "b.dll".to_string(), entry_point: 0 });
    m.state.kernel32.dlls.push(DLL { name: "c.dll".to_string(), entry_point: 0x2000_2000 });
    m.emu.cpu.regs.eip = 0x55;
    let addrs = m.load_exe(&ExeImage { entry_point: 0x401000, stack_size: 0x1000 }, |init| init);
    assert_eq!(m.emu.cpu.regs.eip, SHIM_BASE);
    assert_eq!(addrs.stack_pointer, 0x1FFC);
    let mut init = m.shims.take_future().unwrap();
    assert!(!init.is_done());
    let first = step_dll_init(&mut m, &mut init).unwrap();
    assert_eq!(m.emu.cpu.regs.eip, 0x1000_1000);
    assert_eq!(first.esp(), 0x1FFC);
    // The DllMain returns: ret 12 pops the return address and its arguments.
    m.emu.cpu.regs.esp = 0x1FFC;
    let second = step_dll_init(&mut m, &mut init).unwrap();
    assert_eq!(m.emu.cpu.regs.eip, 0x2000_2000);
    assert!(!second.is_complete(m.emu.cpu.regs.esp));
    m.emu.cpu.regs.esp = 0x1FFC;
    assert!(init.is_done());
    assert!(step_dll_init(&mut m, &mut init).is_none());
    assert_eq!(m.emu.cpu.regs.eip, 0x401000);
}

#[test]
fn load_exe_rounds_stack_to_pages() {
    let mut m = Machine::new("app.exe".to_string(), 0);
    let addrs = m.load_exe(&ExeImage { entry_point: 1, stack_size: 0x1001 }, |init| init);
    assert_eq!(addrs.stack_pointer, 0x1000 + 0x2000 - 4);
}

#[test]
fn stack_room_is_checked_before_loading() {
    let m = Machine::new("app.exe".to_string(), 0);
    assert!(m.state.kernel32.mappings.can_allocate(0x10000));
    assert!(m.state.kernel32.mappings.can_allocate(0xFFFF_E000));
    assert!(!m.state.kernel32.mappings.can_allocate(0xFFFF_F001));
    assert_eq!(m.memory.len(), 0);
}

#[test]
fn dll_init_without_dll_mains_jumps_at_once() {
    let mut m = Machine::new("app.exe".to_string(), 0);
    let mut init = DllInit::new(vec![], 0x401000);
    assert!(init.is_done());
    assert!(step_dll_init(&mut m, &mut init).is_none());
    assert_eq!(m.emu.cpu.regs.eip, 0x401000);
}

#[test]
fn dll_main_is_called_with_process_attach() {
    let mut m = Machine::new("app.exe".to_string(), 0);
    let addrs = m.load_exe(&ExeImage { entry_point: 0x401000, stack_size: 0x1000 }, |init| init);
    let sp = addrs.stack_pointer;
    let fut = call_dll_main(&mut m, 0x1000_1000);
    assert_eq!(m.emu.cpu.regs.eip, 0x1000_1000);
    assert_eq!(m.emu.cpu.regs.esp, sp - 16);
    assert_eq!(m.memory.get_u32(sp - 16), SHIM_BASE);
    assert_eq!(m.memory.get_u32(sp - 12), 0);
    assert_eq!(m.memory.get_u32(sp - 8), 1);
    assert_eq!(m.memory.get_u32(sp - 4), 0);
    assert!(fut.is_complete(sp));
}

#[test]
fn shim_handler_detects_shim_range() {
    let mut m = Machine::new("app.exe".to_string(), 9);
    let addr = m.shims.add("f".to_string(), Some(4));
    let missing = m.shims.add("g".to_string(), None);
    m.emu.cpu.regs.eip = addr;
    assert_eq!(m.shim_handler(), Ok(Some(&4)));
    m.emu.cpu.regs.eip = missing;
    assert_eq!(m.shim_handler(), Err(ShimError::Unhandled(missing)));
    m.emu.cpu.regs.eip = 0xF1A7_0030;
    assert_eq!(m.shim_handler(), Err(ShimError::Unhandled(0xF1A7_0030)));
    m.emu.cpu.regs.eip = 0xF1A8_0000;
    assert_eq!(m.shim_handler(), Ok(None));
    m.emu.cpu.regs.eip = 0x401000;
    assert_eq!(m.shim_handler(), Ok(None));
}

#[test]
fn return_from_shim_pops_and_sets_eax() {
    let mut m = Machine::new("app.exe".to_string(), 0);
    m.load_exe(&ExeImage { entry_point: 0x401000, stack_size: 0x1000 }, |init| init);
    let sp = m.emu.cpu.regs.esp;
    m.memory.put_u32(sp - 12, 0x401234);
    m.emu.cpu.regs.esp = sp - 12;
    m.emu.cpu.regs.eip = 0xF1A7_0001;
    m.return_from_shim(12, 42);
    assert_eq!(m.emu.cpu.regs.eip, 0x401234);
    assert_eq!(m.emu.cpu.regs.esp, sp);
    assert_eq!(m.emu.cpu.regs.eax, 42);
}

#[test]
fn finish_shim_call_returns_for_sync_handlers() {
    let mut m = Machine::new("app.exe".to_string(), 0);
    m.load_exe(&ExeImage { entry_point: 0x401000, stack_size: 0x1000 }, |init| init);
    let sp = m.emu.cpu.regs.esp;
    m.memory.put_u32(sp - 8, 0x401500);
    m.emu.cpu.regs.esp = sp - 8;
    m.emu.cpu.regs.eip = 0xF1A7_0002;
    assert_eq!(m.finish_shim_call(false, 8, 7), Ok(()));
    assert_eq!(m.emu.cpu.regs.eip, 0x401500);
    assert_eq!(m.emu.cpu.regs.esp, sp);
    assert_eq!(m.emu.cpu.regs.eax, 7);
}

#[test]
fn finish_shim_call_leaves_async_handlers_alone() {
    let mut m = Machine::new("app.exe".to_string(), 0);
    m.emu.cpu.regs.eip = 0xF1A7_0000;
    m.emu.cpu.regs.esp = 0x10;
    assert_eq!(m.finish_shim_call(true, 8, 7), Ok(()));
    assert_eq!(m.emu.cpu.regs.eip, 0xF1A7_0000);
    assert_eq!(m.emu.cpu.regs.esp, 0x10);
    assert_eq!(m.emu.cpu.regs.eax, 0);
}

#[test]
fn finish_shim_call_rejects_stack_outside_memory() {
    let mut m = Machine::new("app.exe".to_string(), 0);
    m.emu.cpu.regs.esp = 0x10;
    assert_eq!(m.finish_shim_call(false, 4, 7), Err(ShimError::StackOutOfBounds(0x10)));
    assert_eq!(m.emu.cpu.regs.eax, 0);
    m.memory.grow(0x20);
    m.emu.cpu.regs.esp = 0x10;
    assert_eq!(m.finish_shim_call(false, 0xFFFF_FFFF, 7), Err(ShimError::StackOutOfBounds(0x10)));
    assert_eq!(m.emu.cpu.regs.esp, 0x10);
}

#[test]
fn raw_machine_maps_trampoline_and_stack() {
    let mut m = MachineX::<(), u32, ()>::new("app.exe".to_string(), 0);
    let v = m.state.kernel32.mappings.as_vec();
    assert_eq!((v[1].addr, v[1].size), (0x1000, 0x4000));
    assert_eq!(v[1].desc, "shims x64 trampoline");
    assert_eq!(m.memory.len(), 0x5000);
    let addrs = m.load_exe(&ExeImage { entry_point: 0x401000, stack_size: 0x2000 });
    assert_eq!(addrs.entry_point, 0x401000);
    assert_eq!(addrs.stack_pointer, 0x5000 + 0x2000 - 4);
    assert_eq!(m.memory.len(), 0x7000);
}

#[test]
fn raw_load_exe_stacks_follow_each_other() {
    let mut m = MachineX::<(), u32, ()>::new("app.exe".to_string(), 0);
    let first = m.load_exe(&ExeImage { entry_point: 1, stack_size: 0x1000 });
    let second = m.load_exe(&ExeImage { entry_point: 2, stack_size: 0x1000 });
    assert_eq!(first.stack_pointer, 0x5FFC);
    assert_eq!(second.stack_pointer, 0x6FFC);
    assert_eq!(second.entry_point, 2);
}
