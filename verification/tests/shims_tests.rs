use win32::machine::MachineX;
use win32::shims::{async_call, become_async, Shims, SHIM_BASE};
use win32::x86::X86;

#[test]
fn new_registers_async_executor_at_shim_base() {
    let shims: Shims<u32, ()> = Shims::new(77);
    assert_eq!(shims.async_executor(), SHIM_BASE);
    assert_eq!(shims.get(SHIM_BASE), Some(&77));
    assert_eq!(shims.lookup("retrowin32 async helper"), Some(SHIM_BASE));
}

#[test]
fn add_returns_consecutive_addresses() {
    let mut shims: Shims<u32, ()> = Shims::new(0);
    let a = shims.add("kernel32.dll!ExitProcess".to_string(), Some(1));
    let b = shims.add("kernel32.dll!GetVersion".to_string(), Some(2));
    assert_eq!(a, 0xF1A7_0001);
    assert_eq!(b, 0xF1A7_0002);
    assert_eq!(shims.get(a), Some(&1));
    assert_eq!(shims.get(b), Some(&2));
}

#[test]
fn get_unimplemented_or_unknown_is_none() {
    let mut shims: Shims<u32, ()> = Shims::new(0);
    let a = shims.add("user32.dll!MessageBoxA".to_string(), None);
    assert_eq!(shims.get(a), None);
    assert_eq!(shims.get(SHIM_BASE | 0x50), None);
}

#[test]
fn lookup_finds_first_registration() {
    let mut shims: Shims<u32, ()> = Shims::new(0);
    let a = shims.add("f".to_string(), Some(1));
    let _b = shims.add("g".to_string(), Some(2));
    let _c = shims.add("f".to_string(), Some(3));
    assert_eq!(shims.lookup("f"), Some(a));
    assert_eq!(shims.lookup("g"), Some(SHIM_BASE | 2));
    assert_eq!(shims.lookup("h"), None);
}

#[test]
fn futures_park_and_take() {
    let mut shims: Shims<u32, &'static str> = Shims::new(0);
    assert_eq!(shims.take_future(), None);
    assert!(shims.park_future("first"));
    assert!(!shims.park_future("second"));
    assert_eq!(shims.take_future(), Some("first"));
    assert_eq!(shims.take_future(), None);
}

#[test]
fn become_async_jumps_to_executor() {
    let mut m = MachineX::<X86, u32, &'static str>::new("app.exe".to_string(), 5);
    m.emu.cpu.regs.eip = 0x401000;
    become_async(&mut m, "work");
    assert_eq!(m.emu.cpu.regs.eip, SHIM_BASE);
    assert_eq!(m.shims.take_future(), Some("work"));
}

#[test]
fn async_call_pushes_args_and_return_address() {
    let mut m = MachineX::<X86, u32, ()>::new("app.exe".to_string(), 5);
    m.memory.grow(0x100);
    m.emu.cpu.regs.esp = 0x100;
    m.emu.cpu.regs.eax = 0x1234;
    let fut = async_call(&mut m, 0x402000, vec![10, 20, 30]);
    assert_eq!(m.emu.cpu.regs.esp, 0x100 - 16);
    assert_eq!(m.emu.cpu.regs.eip, 0x402000);
    assert_eq!(m.emu.cpu.regs.eax, 0x1234);
    assert_eq!(m.memory.get_u32(0xF0), SHIM_BASE);
    assert_eq!(m.memory.get_u32(0xF4), 10);
    assert_eq!(m.memory.get_u32(0xF8), 20);
    assert_eq!(m.memory.get_u32(0xFC), 30);
    assert_eq!(fut.esp(), 0x100);
    assert!(!fut.is_complete(m.emu.cpu.regs.esp));
    assert!(fut.is_complete(0x100));
}

#[test]
fn async_call_without_args_pushes_only_return_address() {
    let mut m = MachineX::<X86, u32, ()>::new("app.exe".to_string(), 5);
    m.memory.grow(0x20);
    m.emu.cpu.regs.esp = 0x20;
    let fut = async_call(&mut m, 0x403000, vec![]);
    assert_eq!(m.emu.cpu.regs.esp, 0x1C);
    assert_eq!(m.memory.get_u32(0x1C), SHIM_BASE);
    assert_eq!(m.memory.get_u8(0x1B), 0);
    assert_eq!(fut.esp(), 0x20);
}
