//! The emulated address space as a flat, growable array of bytes.
//!
//! Multi-byte values are stored little-endian, as on x86.

use vstd::prelude::*;

verus! {

/// The little-endian 32-bit value stored in `s[a..a + 4]`.
pub open spec fn u32_at(s: Seq<u8>, a: int) -> u32 {
    (s[a] as int + s[a + 1] as int * 0x100 + s[a + 2] as int * 0x1_0000 + s[a + 3] as int
        * 0x100_0000) as u32
}

/// Byte `k` (0 = least significant) of `v`.
pub open spec fn byte_of(v: u32, k: int) -> u8 {
    if k == 0 {
        (v & 0xff) as u8
    } else if k == 1 {
        ((v >> 8u32) & 0xff) as u8
    } else if k == 2 {
        ((v >> 16u32) & 0xff) as u8
    } else {
        ((v >> 24u32) & 0xff) as u8
    }
}

/// `s` with the little-endian encoding of `v` stored at `s[a..a + 4]`.
pub open spec fn write_u32(s: Seq<u8>, a: int, v: u32) -> Seq<u8> {
    s.update(a, byte_of(v, 0)).update(a + 1, byte_of(v, 1)).update(a + 2, byte_of(v, 2)).update(
        a + 3,
        byte_of(v, 3),
    )
}

/// `s` extended with zero bytes up to length `len` (unchanged if it is already that long).
pub open spec fn grown(s: Seq<u8>, len: nat) -> Seq<u8> {
    if len <= s.len() {
        s
    } else {
        s + Seq::new((len - s.len()) as nat, |i: int| 0u8)
    }
}

proof fn lemma_bytes_compose(v: u32)
    ensures
        byte_of(v, 0) as int + byte_of(v, 1) as int * 0x100 + byte_of(v, 2) as int * 0x1_0000
            + byte_of(v, 3) as int * 0x100_0000 == v,
{
    assert((v & 0xff) as u8 as int + ((v >> 8u32) & 0xff) as u8 as int * 0x100 + ((v >> 16u32)
        & 0xff) as u8 as int * 0x1_0000 + ((v >> 24u32) & 0xff) as u8 as int * 0x100_0000 == v)
        by (bit_vector);
}

/// Reading a 32-bit value back from where it was just written gives the value written,
/// and a write leaves every byte outside its four bytes unchanged.
pub proof fn lemma_read_after_write(s: Seq<u8>, a: int, v: u32, b: int)
    requires
        0 <= a,
        a + 4 <= s.len(),
    ensures
        write_u32(s, a, v).len() == s.len(),
        u32_at(write_u32(s, a, v), a) == v,
        0 <= b < s.len() && (b < a || a + 4 <= b) ==> write_u32(s, a, v)[b] == s[b],
        0 <= b && b + 4 <= s.len() && (b + 4 <= a || a + 4 <= b) ==> u32_at(write_u32(s, a, v), b)
            == u32_at(s, b),
{
    lemma_bytes_compose(v);
}

/// Emulated memory: byte `i` of the vector is the byte at address `i`.
pub struct Mem {
    bytes: Vec<u8>,
}

impl View for Mem {
    type V = Seq<u8>;

    closed spec fn view(&self) -> Seq<u8> {
        self.bytes@
    }
}

impl Mem {
    /// An empty address space.
    pub fn new() -> (m: Mem)
        ensures
            m@ == Seq::<u8>::empty(),
    {
        Mem { bytes: Vec::new() }
    }

    /// Memory holding exactly `bytes`, starting at address 0.
    pub fn from_bytes(bytes: Vec<u8>) -> (m: Mem)
        ensures
            m@ == bytes@,
    {
        Mem { bytes }
    }

    /// Number of addressable bytes.
    pub fn len(&self) -> (n: usize)
        ensures
            n == self@.len(),
    {
        self.bytes.len()
    }

    /// Reads the byte at `addr`.
    pub fn get_u8(&self, addr: u32) -> (b: u8)
        requires
            addr < self@.len(),
        ensures
            b == self@[addr as int],
    {
        self.bytes[addr as usize]
    }

    /// Reads the little-endian 32-bit value at `addr`.
    pub fn get_u32(&self, addr: u32) -> (v: u32)
        requires
            addr + 4 <= self@.len(),
        ensures
            v == u32_at(self@, addr as int),
    {
        let a = addr as usize;
        assert(a + 4 <= self.bytes.len());
        let b0 = self.bytes[a] as u32;
        let b1 = self.bytes[a + 1] as u32;
        let b2 = self.bytes[a + 2] as u32;
        let b3 = self.bytes[a + 3] as u32;
        assert(b0 | (b1 << 8u32) | (b2 << 16u32) | (b3 << 24u32) == b0 + b1 * 0x100 + b2 * 0x1_0000
            + b3 * 0x100_0000) by (bit_vector)
            requires
                b0 < 0x100,
                b1 < 0x100,
                b2 < 0x100,
                b3 < 0x100,
        ;
        b0 | (b1 << 8u32) | (b2 << 16u32) | (b3 << 24u32)
    }

    /// Writes `v` little-endian at `addr`.
    pub fn put_u32(&mut self, addr: u32, v: u32)
        requires
            addr + 4 <= old(self)@.len(),
        ensures
            final(self)@ == write_u32(old(self)@, addr as int, v),
    {
        let a = addr as usize;
        assert(a + 4 <= self.bytes.len());
        self.bytes.set(a, (v & 0xff) as u8);
        self.bytes.set(a + 1, ((v >> 8u32) & 0xff) as u8);
        self.bytes.set(a + 2, ((v >> 16u32) & 0xff) as u8);
        self.bytes.set(a + 3, ((v >> 24u32) & 0xff) as u8);
    }

    /// Extends memory with zero bytes so that it holds at least `len` bytes.
    pub fn grow(&mut self, len: usize)
        ensures
            final(self)@ == grown(old(self)@, len as nat),
    {
        if len > self.bytes.len() {
            let ghost old_bytes = self.bytes@;
            self.bytes.resize(len, 0u8);
            assert(self.bytes@ =~= grown(old_bytes, len as nat)) by {
                assert forall|i: int| 0 <= i < self.bytes@.len() implies self.bytes@[i]
                    == grown(old_bytes, len as nat)[i] by {
                    if i < old_bytes.len() {
                        assert(self.bytes@.subrange(0, old_bytes.len() as int)[i] == old_bytes[i]);
                    }
                }
            }
        }
    }
}

} // verus!
