//! The list of regions mapped into the emulated address space.
//!
//! Mappings are kept sorted by address, pairwise disjoint, page aligned and
//! below 4 GiB.  New regions are placed first-fit: in the lowest gap between
//! existing mappings that is large enough.

use vstd::prelude::*;

use crate::memory::{grown, Mem};
use crate::x86::NULL_POINTER_REGION_SIZE;

verus! {

/// Granularity of mappings.
pub const PAGE_SIZE: u32 = 0x1000;

/// One region of the address space.
pub struct Mapping {
    pub addr: u32,
    pub size: u32,
    pub desc: String,
}

/// First address past the end of `m`.
pub open spec fn end_of(m: Mapping) -> int {
    m.addr as int + m.size as int
}

/// `size` rounded up to a whole number of pages.
pub open spec fn round_up_to_page(size: u32) -> int {
    ((size as int + 0xfff) / 0x1000) * 0x1000
}

/// The mappings are page aligned, end at or below 4 GiB, and are sorted by
/// address without overlapping.
pub open spec fn mappings_wf(ms: Seq<Mapping>) -> bool {
    &&& forall|i: int|
        0 <= i < ms.len() ==> {
            &&& end_of(#[trigger] ms[i]) <= 0x1_0000_0000
            &&& ms[i].addr % 0x1000 == 0
            &&& ms[i].size % 0x1000 == 0
        }
    &&& forall|i: int, j: int| 0 <= i < j < ms.len() ==> end_of(#[trigger] ms[i]) <= (#[trigger] ms[j]).addr
}

/// First-fit search, starting at index `i` with the previous mapping ending at
/// `prev_end`: the index before which a region of `size` bytes goes, and its
/// address.  Past the last mapping the region goes at the end of the list.
pub open spec fn find_space(ms: Seq<Mapping>, i: int, prev_end: int, size: int) -> (int, int)
    decreases ms.len() - i,
{
    if i < 0 || i >= ms.len() {
        (ms.len() as int, prev_end)
    } else if ms[i].addr - prev_end >= size {
        (i, prev_end)
    } else {
        find_space(ms, i + 1, end_of(ms[i]), size)
    }
}

/// Where `allocate` places a region of `size` bytes: the insertion index and the
/// address, or `None` when the rounded size does not fit in 32 bits or the
/// first gap found does not end at or below 4 GiB.
pub open spec fn alloc_slot(ms: Seq<Mapping>, size: u32) -> Option<(int, int)> {
    let s = round_up_to_page(size);
    let (i, a) = find_space(ms, 0, 0, s);
    if s <= 0xffff_ffff && a + s <= 0x1_0000_0000 {
        Some((i, a))
    } else {
        None
    }
}

/// Inserting a page-aligned region that fits in the gap between its
/// neighbours keeps the mappings well formed.
proof fn lemma_insert_wf(ms: Seq<Mapping>, i: int, m: Mapping)
    requires
        mappings_wf(ms),
        0 <= i <= ms.len(),
        i > 0 ==> end_of(ms[i - 1]) <= m.addr,
        i < ms.len() ==> end_of(m) <= ms[i].addr,
        end_of(m) <= 0x1_0000_0000,
        m.addr % 0x1000 == 0,
        m.size % 0x1000 == 0,
    ensures
        mappings_wf(ms.insert(i, m)),
{
    let new_ms = ms.insert(i, m);
    ms.insert_ensures(i, m);
    assert forall|j: int| 0 <= j < new_ms.len() implies {
        &&& end_of(#[trigger] new_ms[j]) <= 0x1_0000_0000
        &&& new_ms[j].addr % 0x1000 == 0
        &&& new_ms[j].size % 0x1000 == 0
    } by {
        if j < i {
            assert(new_ms[j] == ms[j]);
        } else if j > i {
            assert(new_ms[j] == ms[j - 1]);
        }
    }
    assert forall|j: int, k: int| 0 <= j < k < new_ms.len() implies end_of(#[trigger] new_ms[j])
        <= (#[trigger] new_ms[k]).addr by {
        if k < i {
            assert(new_ms[j] == ms[j]);
            assert(new_ms[k] == ms[k]);
        } else if k == i {
            assert(new_ms[j] == ms[j]);
            if j < i - 1 {
                assert(end_of(ms[j]) <= ms[i - 1].addr);
            }
        } else if j > i {
            assert(new_ms[j] == ms[j - 1]);
            assert(new_ms[k] == ms[k - 1]);
        } else if j == i {
            assert(new_ms[k] == ms[k - 1]);
            if k - 1 > i {
                assert(end_of(ms[i]) <= ms[k - 1].addr);
            }
        } else {
            assert(new_ms[j] == ms[j]);
            assert(new_ms[k] == ms[k - 1]);
            if j < i - 1 {
                assert(end_of(ms[j]) <= ms[i - 1].addr);
            }
            if k - 1 > i {
                assert(end_of(ms[i]) <= ms[k - 1].addr);
            }
        }
    }
}

/// `allocate` fits a region of `size` bytes into `ms`: a slot exists and the
/// host can address memory up to its end.
pub open spec fn alloc_fits(ms: Seq<Mapping>, size: u32) -> bool {
    alloc_slot(ms, size) matches Some((idx, a)) && a + round_up_to_page(size) <= usize::MAX
}

/// `after` is `before` with a region of `size` bytes described by `desc`
/// inserted at the slot `alloc_slot` picks.
pub open spec fn allocated(before: Seq<Mapping>, after: Seq<Mapping>, size: u32, desc: Seq<char>) -> bool {
    &&& alloc_slot(before, size) matches Some((idx, a))
    &&& after == before.insert(idx, after[idx])
    &&& after[idx].addr == a
    &&& after[idx].size == round_up_to_page(size)
    &&& after[idx].desc@ == desc
}

/// What the first-fit search finds when started at the beginning (or just
/// after mapping `i - 1`): the insertion index `k` and the gap's address `a`,
/// where `a` is the end of the mapping before index `k` (or 0), and the
/// mapping at `k`, if any, starts at least `size` bytes after `a`.
proof fn lemma_find_space(ms: Seq<Mapping>, i: int, prev_end: int, size: int)
    requires
        mappings_wf(ms),
        0 <= i <= ms.len(),
        i == 0 ==> prev_end == 0,
        i > 0 ==> prev_end == end_of(ms[i - 1]),
    ensures
        ({
            let (k, a) = find_space(ms, i, prev_end, size);
            &&& i <= k <= ms.len()
            &&& k == 0 ==> a == 0
            &&& k > 0 ==> a == end_of(ms[k - 1])
            &&& k < ms.len() ==> ms[k].addr - a >= size
        }),
    decreases ms.len() - i,
{
    if i < ms.len() && !(ms[i].addr - prev_end >= size) {
        lemma_find_space(ms, i + 1, end_of(ms[i]), size);
    }
}

/// First fit never overlaps: the region that `allocate` places lies entirely
/// before or entirely after every region mapped before it, and it is page
/// aligned.
pub proof fn lemma_alloc_disjoint(ms: Seq<Mapping>, size: u32, j: int)
    requires
        mappings_wf(ms),
        alloc_slot(ms, size) is Some,
        0 <= j < ms.len(),
    ensures
        alloc_slot(ms, size) matches Some((idx, a)) && {
            &&& end_of(ms[j]) <= a || a + round_up_to_page(size) <= ms[j].addr
            &&& a % 0x1000 == 0
        },
{
    let s = round_up_to_page(size);
    lemma_find_space(ms, 0, 0, s);
    let (k, a) = find_space(ms, 0, 0, s);
    if j < k {
        if j < k - 1 {
            assert(end_of(ms[j]) <= ms[k - 1].addr);
        }
    } else {
        if j > k {
            assert(end_of(ms[k]) <= ms[j].addr);
        }
    }
    if k > 0 {
        assert(ms[k - 1].addr % 0x1000 == 0 && ms[k - 1].size % 0x1000 == 0);
    }
}

/// The mapped regions of an address space.
pub struct Mappings {
    mappings: Vec<Mapping>,
}

impl View for Mappings {
    type V = Seq<Mapping>;

    closed spec fn view(&self) -> Seq<Mapping> {
        self.mappings@
    }
}

impl Mappings {
    #[verifier::type_invariant]
    spec fn inv(self) -> bool {
        mappings_wf(self.mappings@)
    }

    /// An address space holding only the guard region at address 0 that
    /// catches null pointer dereferences.
    pub fn new() -> (m: Mappings)
        ensures
            m@.len() == 1,
            m@[0].addr == 0,
            m@[0].size == NULL_POINTER_REGION_SIZE,
            m@[0].desc@ == "avoid null pointers"@,
            mappings_wf(m@),
    {
        let mut mappings = Vec::new();
        mappings.push(
            Mapping { addr: 0, size: NULL_POINTER_REGION_SIZE, desc: "avoid null pointers".to_owned() },
        );
        Mappings { mappings }
    }

    /// Accepts `mappings` if they are sorted, disjoint, page aligned and below 4 GiB.
    pub fn from_vec(mappings: Vec<Mapping>) -> (r: Option<Mappings>)
        ensures
            r is Some <==> mappings_wf(mappings@),
            r matches Some(m) ==> m@ == mappings@,
    {
        let n = mappings.len();
        let mut i: usize = 0;
        while i < n
            invariant
                n == mappings.len(),
                i <= n,
                mappings_wf(mappings@.take(i as int)),
            decreases n - i,
        {
            let m = &mappings[i];
            if m.addr % PAGE_SIZE != 0 || m.size % PAGE_SIZE != 0 || m.addr as u64 + m.size as u64 > 0x1_0000_0000 {
                proof {
                    assert(mappings@[i as int] == *m);
                }
                return None;
            }
            if i > 0 {
                let p = &mappings[i - 1];
                if p.addr as u64 + p.size as u64 > m.addr as u64 {
                    proof {
                        assert(mappings@[i - 1] == *p);
                        assert(mappings@[i as int] == *m);
                    }
                    return None;
                }
            }
            proof {
                let prefix = mappings@.take(i as int);
                let next = mappings@.take(i + 1);
                assert forall|j: int, k: int| 0 <= j < k < next.len() implies end_of(#[trigger] next[j])
                    <= (#[trigger] next[k]).addr by {
                    if k == i && j < i - 1 {
                        assert(prefix[j] == next[j]);
                        assert(prefix[i - 1] == next[i - 1]);
                        assert(end_of(prefix[j]) <= prefix[i - 1].addr);
                    } else if k < i {
                        assert(prefix[j] == next[j]);
                        assert(prefix[k] == next[k]);
                    }
                }
                assert forall|j: int| 0 <= j < next.len() implies {
                    &&& end_of(#[trigger] next[j]) <= 0x1_0000_0000
                    &&& next[j].addr % 0x1000 == 0
                    &&& next[j].size % 0x1000 == 0
                } by {
                    if j < i {
                        assert(prefix[j] == next[j]);
                    }
                }
            }
            i = i + 1;
        }
        assert(mappings@.take(n as int) =~= mappings@);
        Some(Mappings { mappings })
    }

    /// The mappings, in address order.
    pub fn as_vec(&self) -> (v: &Vec<Mapping>)
        ensures
            v@ == self@,
    {
        &self.mappings
    }

    /// First-fit search for a gap of `size` bytes: the index at which the new
    /// mapping goes and its address.
    fn find_space(&self, size: u64) -> (r: (usize, u64))
        ensures
            r.0 as int == find_space(self@, 0, 0, size as int).0,
            r.1 as int == find_space(self@, 0, 0, size as int).1,
            r.0 <= self@.len(),
            r.0 == 0 ==> r.1 == 0,
            r.0 > 0 ==> r.1 == end_of(self@[r.0 - 1]),
            r.0 < self@.len() ==> self@[r.0 as int].addr - r.1 >= size,
            r.1 <= 0x1_0000_0000,
            r.1 % 0x1000 == 0,
    {
        proof {
            use_type_invariant(self);
        }
        let n = self.mappings.len();
        let mut i: usize = 0;
        let mut prev_end: u64 = 0;
        while i < n
            invariant_except_break
                n == self.mappings@.len(),
                i <= n,
                mappings_wf(self.mappings@),
                find_space(self@, i as int, prev_end as int, size as int) == find_space(
                    self@,
                    0,
                    0,
                    size as int,
                ),
                i == 0 ==> prev_end == 0,
                i > 0 ==> prev_end == end_of(self@[i - 1]),
                prev_end <= 0x1_0000_0000,
                prev_end % 0x1000 == 0,
            ensures
                i <= n,
                find_space(self@, 0, 0, size as int) == (i as int, prev_end as int),
                i == 0 ==> prev_end == 0,
                i > 0 ==> prev_end == end_of(self@[i - 1]),
                i < n ==> self@[i as int].addr - prev_end >= size,
                prev_end <= 0x1_0000_0000,
                prev_end % 0x1000 == 0,
            decreases n - i,
        {
            let m = &self.mappings[i];
            proof {
                assert(self@[i as int] == *m);
                if i > 0 {
                    assert(end_of(self@[i - 1]) <= self@[i as int].addr);
                }
                assert(end_of(self@[i as int]) <= 0x1_0000_0000);
            }
            if m.addr as u64 - prev_end >= size {
                break;
            }
            prev_end = m.addr as u64 + m.size as u64;
            i = i + 1;
        }
        (i, prev_end)
    }

    /// Whether `allocate` would find room for a region of `size` bytes.
    pub fn can_allocate(&self, size: u32) -> (r: bool)
        ensures
            r == alloc_fits(self@, size),
    {
        let rounded: u64 = (size as u64 + 0xfff) / 0x1000 * 0x1000;
        let (_i, addr) = self.find_space(rounded);
        rounded <= 0xffff_ffff && addr + rounded <= 0x1_0000_0000 && addr + rounded <= usize::MAX as u64
    }

    /// Maps a new region of `size` bytes (rounded up to whole pages) at the
    /// lowest address where it fits, and grows `mem` to cover it.  Returns the
    /// new mapping, or `None` (changing nothing) when there is no room below
    /// 4 GiB or the host cannot address memory that large.
    pub fn allocate(&mut self, size: u32, desc: String, mem: &mut Mem) -> (r: Option<Mapping>)
        ensures
            r is Some <==> alloc_fits(old(self)@, size),
            r matches Some(m) ==> {
                &&& alloc_slot(old(self)@, size) matches Some((idx, a))
                &&& a == m.addr
                &&& final(self)@ == old(self)@.insert(idx, m)
                &&& m.size == round_up_to_page(size)
                &&& m.desc == desc
                &&& allocated(old(self)@, final(self)@, size, desc@)
                &&& final(mem)@ == grown(old(mem)@, end_of(m) as nat)
            },
            r is None ==> *final(self) == *old(self) && *final(mem) == *old(mem),
            mappings_wf(old(self)@),
            mappings_wf(final(self)@),
    {
        proof {
            use_type_invariant(&*self);
        }
        let rounded: u64 = (size as u64 + 0xfff) / 0x1000 * 0x1000;
        assert(rounded % 0x1000 == 0) by (nonlinear_arith)
            requires
                rounded == (size as u64 + 0xfff) / 0x1000 * 0x1000,
        ;
        let (i, addr) = self.find_space(rounded);
        if rounded > 0xffff_ffff || addr + rounded > 0x1_0000_0000 {
            return None;
        }
        let end: u64 = addr + rounded;
        if end > usize::MAX as u64 {
            return None;
        }
        mem.grow(end as usize);
        let m = Mapping { addr: addr as u32, size: rounded as u32, desc: desc.clone() };
        let stored = Mapping { addr: addr as u32, size: rounded as u32, desc };
        proof {
            lemma_insert_wf(self.mappings@, i as int, stored);
        }
        let mut v = Vec::new();
        std::mem::swap(&mut v, &mut self.mappings);
        v.insert(i, stored);
        self.mappings = v;
        Some(m)
    }
}

} // verus!
