use win32::mappings::{Mapping, Mappings};
use win32::memory::Mem;
use win32::x86::{push, X86};

#[test]
fn put_then_get_is_little_endian() {
    let mut mem = Mem::from_bytes(vec![0xAA; 8]);
    mem.put_u32(2, 0x1122_3344);
    assert_eq!(mem.get_u8(1), 0xAA);
    assert_eq!(mem.get_u8(2), 0x44);
    assert_eq!(mem.get_u8(3), 0x33);
    assert_eq!(mem.get_u8(4), 0x22);
    assert_eq!(mem.get_u8(5), 0x11);
    assert_eq!(mem.get_u8(6), 0xAA);
    assert_eq!(mem.get_u32(2), 0x1122_3344);
}

#[test]
fn grow_extends_with_zeros_and_never_shrinks() {
    let mut mem = Mem::from_bytes(vec![7, 8]);
    mem.grow(5);
    assert_eq!(mem.len(), 5);
    assert_eq!(mem.get_u8(0), 7);
    assert_eq!(mem.get_u8(4), 0);
    mem.grow(3);
    assert_eq!(mem.len(), 5);
}

#[test]
fn push_moves_esp_down_and_stores_value() {
    let mut x86 = X86::new();
    let mut mem = Mem::from_bytes(vec![0; 16]);
    x86.cpu.regs.esp = 16;
    push(&mut x86, &mut mem, 0xDEAD_BEEF);
    assert_eq!(x86.cpu.regs.esp, 12);
    assert_eq!(mem.get_u32(12), 0xDEAD_BEEF);
    push(&mut x86, &mut mem, 5);
    assert_eq!(x86.cpu.regs.esp, 8);
    assert_eq!(mem.get_u32(8), 5);
    assert_eq!(mem.get_u32(12), 0xDEAD_BEEF);
}

#[test]
fn allocate_places_first_fit_after_null_region() {
    let mut ms = Mappings::new();
    let mut mem = Mem::new();
    let a = ms.allocate(0x1800, "a".to_string(), &mut mem).unwrap();
    assert_eq!((a.addr, a.size), (0x1000, 0x2000));
    assert_eq!(a.desc, "a");
    assert_eq!(mem.len(), 0x3000);
    let b = ms.allocate(1, "b".to_string(), &mut mem).unwrap();
    assert_eq!((b.addr, b.size), (0x3000, 0x1000));
    assert_eq!(mem.len(), 0x4000);
    let v = ms.as_vec();
    assert_eq!(v.len(), 3);
    assert_eq!(v[1].desc, "a");
    assert_eq!(v[2].desc, "b");
}

#[test]
fn allocate_fills_a_gap_between_mappings() {
    let ms = vec![
        Mapping { addr: 0, size: 0x1000, desc: "null".to_string() },
        Mapping { addr: 0x4000, size: 0x1000, desc: "high".to_string() },
    ];
    let mut ms = Mappings::from_vec(ms).unwrap();
    let mut mem = Mem::new();
    let small = ms.allocate(0x2000, "gap".to_string(), &mut mem).unwrap();
    assert_eq!(small.addr, 0x1000);
    let v = ms.as_vec();
    assert_eq!(v[1].desc, "gap");
    assert_eq!(v[2].desc, "high");
    let big = ms.allocate(0x2000, "after".to_string(), &mut mem).unwrap();
    assert_eq!(big.addr, 0x5000);
    assert_eq!(mem.len(), 0x7000);
}

#[test]
fn allocate_fails_without_room() {
    let ms = vec![
        Mapping { addr: 0, size: 0x1000, desc: "null".to_string() },
        Mapping { addr: 0xFFFF_0000, size: 0x1_0000, desc: "top".to_string() },
    ];
    let mut ms = Mappings::from_vec(ms).unwrap();
    let mut mem = Mem::new();
    assert!(ms.allocate(0xFFFF_0000, "huge".to_string(), &mut mem).is_none());
    assert!(ms.allocate(0xFFFF_FFFF, "too big".to_string(), &mut mem).is_none());
    assert_eq!(ms.as_vec().len(), 2);
    assert_eq!(mem.len(), 0);
}

#[test]
fn from_vec_rejects_bad_mappings() {
    let overlapping = vec![
        Mapping { addr: 0, size: 0x2000, desc: "a".to_string() },
        Mapping { addr: 0x1000, size: 0x1000, desc: "b".to_string() },
    ];
    assert!(Mappings::from_vec(overlapping).is_none());
    let unaligned = vec![Mapping { addr: 0x10, size: 0x1000, desc: "a".to_string() }];
    assert!(Mappings::from_vec(unaligned).is_none());
    let past_4g = vec![Mapping { addr: 0xFFFF_F000, size: 0x2000, desc: "a".to_string() }];
    assert!(Mappings::from_vec(past_4g).is_none());
    assert!(Mappings::from_vec(vec![]).is_some());
}
