//! Physical addresses and physical frames.
use vstd::prelude::*;
use vstd::std_specs::ops::{AddSpec, SubSpec};

verus! {

/// Number of bits an address is shifted by to obtain its frame number.
pub const PAGE_SHIFT: u64 = 12;

/// The size of a page (4 KiB), in bytes.
pub const PAGE_SIZE: u64 = 4096;

/// The size of a large page (2 MiB), in bytes.
pub const LARGE_PAGE_SIZE: u64 = 2097152;

/// The size of a huge page (1 GiB), in bytes.
pub const HUGE_PAGE_SIZE: u64 = 1073741824;

/// A physical (linear) memory address: any 64-bit pattern.
#[derive(Clone, Copy, Debug, PartialEq, Eq, Structural)]
pub struct PAddr(pub u64);

impl PAddr {
    /// Wraps a raw bit pattern; no validation takes place.
    pub fn from_raw(n: u64) -> (r: PAddr)
        ensures
            r.0 == n,
    {
        PAddr(n)
    }

    /// The raw bit pattern of this address.
    pub fn as_u64(&self) -> (r: u64)
        ensures
            r == self.0,
    {
        self.0
    }
}

/// A range of physical memory given by its first byte and its length, such
/// as the heap or the stack that the linker places.
#[derive(Clone, Copy, Debug, PartialEq, Eq, Structural)]
pub struct MemoryRegion {
    pub start: PAddr,
    pub length: u64,
}

impl MemoryRegion {
    /// The region from `base` up to, not including, `top`; `None` where
    /// `top` lies below `base`.
    pub fn from_bounds(base: PAddr, top: PAddr) -> (r: Option<MemoryRegion>)
        ensures
            r is Some <==> base.0 <= top.0,
            r matches Some(m) ==> m.start == base && m.length == top.0 - base.0,
    {
        if top.0 < base.0 {
            None
        } else {
            Some(MemoryRegion { start: base, length: top.0 - base.0 })
        }
    }

    /// Whether `a` lies inside this region.
    pub fn contains(&self, a: PAddr) -> (r: bool)
        ensures
            r == (self.start.0 <= a.0 && a.0 < self.start.0 + self.length),
    {
        self.start.0 <= a.0 && a.0 - self.start.0 < self.length
    }
}

/// A frame (physical page), identified by its frame number.
#[derive(Clone, Copy, Debug, PartialEq, Eq, Structural)]
pub struct PhysicalPage {
    pub number: u64,
}

/// The first byte of frame `number`, reduced to 64 bits as the hardware
/// address register would hold it.
pub open spec fn frame_base(number: u64) -> u64 {
    (number * PAGE_SIZE) as u64
}

/// The number of the frame holding byte `addr`.
pub open spec fn frame_of(addr: u64) -> u64 {
    addr / PAGE_SIZE
}

impl PhysicalPage {
    /// Returns the physical address where this frame starts.
    pub fn base_addr(&self) -> (r: PAddr)
        ensures
            r.0 == frame_base(self.number),
            self.number < 0x10_0000_0000_0000 ==> r.0 == self.number * PAGE_SIZE,
    {
        let n = self.number;
        assert(n << 12u64 == (n * 4096) as u64) by (bit_vector);
        assert(n < 0x10_0000_0000_0000 ==> (n * 4096) as u64 == n * 4096) by (bit_vector);
        PAddr(n << PAGE_SHIFT)
    }

    /// Returns the frame containing `addr`.
    pub fn containing_addr(addr: PAddr) -> (r: PhysicalPage)
        ensures
            r.number == frame_of(addr.0),
    {
        let a = addr.0;
        assert(a >> 12u64 == a / 4096) by (bit_vector);
        PhysicalPage { number: a >> PAGE_SHIFT }
    }
}

impl core::ops::Add<usize> for PhysicalPage {
    type Output = PhysicalPage;

    /// The frame `rhs` frames above this one.
    fn add(self, rhs: usize) -> (r: PhysicalPage) {
        PhysicalPage { number: self.number + rhs as u64 }
    }
}

impl vstd::std_specs::ops::AddSpecImpl<usize> for PhysicalPage {
    open spec fn obeys_add_spec() -> bool {
        true
    }

    open spec fn add_req(self, rhs: usize) -> bool {
        self.number + rhs <= u64::MAX
    }

    open spec fn add_spec(self, rhs: usize) -> PhysicalPage {
        PhysicalPage { number: (self.number + rhs) as u64 }
    }
}

impl core::ops::Sub<usize> for PhysicalPage {
    type Output = PhysicalPage;

    /// The frame `rhs` frames below this one.
    fn sub(self, rhs: usize) -> (r: PhysicalPage) {
        PhysicalPage { number: self.number - rhs as u64 }
    }
}

impl vstd::std_specs::ops::SubSpecImpl<usize> for PhysicalPage {
    open spec fn obeys_sub_spec() -> bool {
        true
    }

    open spec fn sub_req(self, rhs: usize) -> bool {
        self.number >= rhs
    }

    open spec fn sub_spec(self, rhs: usize) -> PhysicalPage {
        PhysicalPage { number: (self.number - rhs) as u64 }
    }
}

impl PhysicalPage {
    /// Moves this frame `rhs` frames up, as `+=` would.
    pub fn add_assign(&mut self, rhs: usize)
        requires
            old(self).number + rhs <= u64::MAX,
        ensures
            final(self).number == old(self).number + rhs,
    {
        self.number = self.number + rhs as u64;
    }

    /// Moves this frame `rhs` frames down, as `-=` would.
    pub fn sub_assign(&mut self, rhs: usize)
        requires
            old(self).number >= rhs,
        ensures
            final(self).number == old(self).number - rhs,
    {
        self.number = self.number - rhs as u64;
    }
}

/// Stepping a frame up by `n` and back down by `n` gives the frame back.
pub proof fn lemma_add_sub_inverse(f: PhysicalPage, n: usize)
    requires
        f.number + n <= u64::MAX,
    ensures
        f.add_req(n),
        f.add_spec(n).sub_req(n),
        f.add_spec(n).sub_spec(n) == f,
{
}

/// Every address lies inside the frame that contains it:
/// `containing_addr(a).base_addr() <= a < containing_addr(a).base_addr() + PAGE_SIZE`.
pub proof fn lemma_containing_frame_bounds(a: u64)
    ensures
        frame_of(a) < 0x10_0000_0000_0000,
        frame_base(frame_of(a)) <= a,
        a < frame_base(frame_of(a)) + PAGE_SIZE,
{
    let n = frame_of(a);
    assert(n == a / 4096);
    assert(n * 4096 <= a && a < n * 4096 + 4096) by (nonlinear_arith)
        requires
            n == a / 4096,
    ;
    assert(n < 0x10_0000_0000_0000);
    assert(frame_base(n) == n * 4096);
}

} // verus!
