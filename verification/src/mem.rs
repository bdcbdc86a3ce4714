//! Memory bookkeeping: the image's load offset, the heap as an opaque
//! allocate-or-fail bump service, and selection of the shared-memory
//! region from the boot memory map.
//!
//! The heap's internals are out of scope; the model keeps only what the
//! rest of the core observes of it: its virtual base, its size, and a
//! monotonically advancing allocation cursor that never reclaims.

use vstd::prelude::*;

use crate::paging::{PhysAddr, VirtAddr};

verus! {

/// Region type tag that marks the one shared-memory region in the boot
/// memory map.
pub const SHARED_MEM_REGION_TYPE: u32 = 7;

/// One region of the boot-time memory map, as plain values.
#[derive(Copy, Clone, Debug, PartialEq, Eq, Structural)]
pub struct MemoryRegion {
    /// Physical start address of the region.
    pub start: u64,
    /// Size of the region in bytes.
    pub size: u64,
    /// Raw region type tag.
    pub typ: u32,
}

/// The smallest index in `[from, len)` of a region tagged as shared
/// memory, or the length if none is.
pub open spec fn first_shared_region(regions: Seq<MemoryRegion>, from: int) -> int
    recommends
        0 <= from <= regions.len(),
    decreases regions.len() - from
        when 0 <= from <= regions.len()
{
    if from >= regions.len() {
        regions.len() as int
    } else if regions[from].typ == SHARED_MEM_REGION_TYPE {
        from
    } else {
        first_shared_region(regions, from + 1)
    }
}

/// Picks the region the mailbox lives in: the first region of the boot
/// memory map tagged with the shared-memory type, if any.
pub fn find_shared_memory_region(regions: &Vec<MemoryRegion>) -> (r: Option<MemoryRegion>)
    ensures
        ({
            let m = first_shared_region(regions@, 0);
            if m < regions@.len() {
                r == Some(regions@[m])
            } else {
                r == None::<MemoryRegion>
            }
        }),
{
    let n = regions.len();
    let mut i: usize = 0;
    while i < n
        invariant
            0 <= i <= n,
            n == regions@.len(),
            first_shared_region(regions@, 0) == first_shared_region(regions@, i as int),
        decreases n - i,
    {
        let region = regions[i];
        if region.typ == SHARED_MEM_REGION_TYPE {
            return Some(region);
        }
        i = i + 1;
    }
    None
}

/// The value `v` shifted by `off` in wrapping 64-bit arithmetic.
pub open spec fn wrap_shift(v: u64, off: i64) -> u64 {
    if v + off > u64::MAX {
        (v + off - 0x1_0000_0000_0000_0000) as u64
    } else if v + off < 0 {
        (v + off + 0x1_0000_0000_0000_0000) as u64
    } else {
        (v + off) as u64
    }
}

/// The load offset of the image: how far physical memory placement moved
/// the image relative to its link addresses. Fixed once at startup.
pub struct MemLayout {
    offset: i64,
}

impl MemLayout {
    /// The stored offset.
    pub closed spec fn spec_offset(self) -> i64 {
        self.offset
    }

    /// Records the load offset discovered at boot.
    pub fn new(load_offset: i64) -> (r: Self)
        ensures
            r.spec_offset() == load_offset,
    {
        MemLayout { offset: load_offset }
    }

    /// Returns the load offset of the image in physical memory.
    pub fn load_offset(&self) -> (r: i64)
        ensures
            r == self.spec_offset(),
    {
        self.offset
    }

    /// Translates a virtual link address to its physical address by
    /// shifting it by the load offset, in wrapping 64-bit arithmetic.
    pub fn virt_to_phys(&self, virt: VirtAddr) -> (r: PhysAddr)
        ensures
            r.0 == wrap_shift(virt.0, self.spec_offset()),
    {
        PhysAddr::new(virt.0.wrapping_add_signed(self.offset))
    }
}

/// The next allocation start: `addr` rounded up to a multiple of
/// `align`.
pub open spec fn align_up(addr: int, align: int) -> int
    recommends
        align >= 1,
{
    if addr % align == 0 {
        addr
    } else {
        addr + align - addr % align
    }
}

/// What a bump allocation of `bytes` bytes aligned to `align` from heap
/// state `h` yields: the start address, or nothing on exhaustion.
pub open spec fn spec_alloc_start(h: Heap, bytes: int, align: int) -> Option<int> {
    let start = align_up(h.base_virt() + h.next(), align);
    if start + bytes <= h.base_virt() + h.size() {
        Some(start)
    } else {
        None
    }
}

/// The two heap states agree on everything the core observes.
pub open spec fn heap_unchanged(h0: Heap, h1: Heap) -> bool {
    &&& h1.base_virt() == h0.base_virt()
    &&& h1.size() == h0.size()
    &&& h1.next() == h0.next()
}

/// `h1` is `h0` after one successful allocation that ended at offset
/// `end` (the byte past the block, relative to the heap base).
pub open spec fn heap_advanced(h0: Heap, h1: Heap, end: int) -> bool {
    &&& h1.base_virt() == h0.base_virt()
    &&& h1.size() == h0.size()
    &&& h1.next() == end
}

/// The heap, reduced to what the core observes of the real allocator: a
/// virtual base, a size, and a bump cursor. Allocation either succeeds or
/// fails; nothing is ever freed.
pub struct Heap {
    base_virt: u64,
    size: usize,
    next: usize,
}

impl Heap {
    /// Virtual address the heap starts at.
    pub closed spec fn base_virt(self) -> u64 {
        self.base_virt
    }

    /// Total size of the heap in bytes.
    pub closed spec fn size(self) -> int {
        self.size as int
    }

    /// Offset of the first byte not yet handed out.
    pub closed spec fn next(self) -> int {
        self.next as int
    }

    /// Well-formedness: the cursor stays inside the heap, the heap is at
    /// least a page, and the end of the heap leaves headroom for one
    /// page of alignment rounding.
    pub open spec fn wf(self) -> bool {
        &&& 0 <= self.next() <= self.size()
        &&& 0x1000 <= self.size()
        &&& self.base_virt() + self.size() + 0x1000 <= u64::MAX
    }

    /// Adopts the heap region chosen at startup.
    pub fn init(base_virt: u64, size: usize) -> (r: Self)
        requires
            0x1000 <= size,
            base_virt + size + 0x1000 <= u64::MAX,
        ensures
            r.wf(),
            r.base_virt() == base_virt,
            r.size() == size,
            r.next() == 0,
    {
        Heap { base_virt, size, next: 0 }
    }

    /// Returns the current heap size.
    pub fn get_current_heap_size(&self) -> (r: usize)
        ensures
            r == self.size(),
    {
        self.size
    }

    /// Hands out `bytes` bytes aligned to `align`, advancing the cursor,
    /// or reports exhaustion without changing anything. The returned
    /// address is virtual; the memory itself lives with the embedder.
    pub fn allocate(&mut self, bytes: usize, align: usize) -> (r: Option<u64>)
        requires
            old(self).wf(),
            1 <= align <= 0x1000,
        ensures
            final(self).wf(),
            ({
                match spec_alloc_start(*old(self), bytes as int, align as int) {
                    Some(start) => {
                        &&& r == Some(start as u64)
                        &&& heap_advanced(*old(self), *final(self), start + bytes - old(
                            self,
                        ).base_virt())
                    },
                    None => {
                        &&& r == None::<u64>
                        &&& heap_unchanged(*old(self), *final(self))
                    },
                }
            }),
    {
        let addr: u64 = self.base_virt + (self.next as u64);
        let rem: u64 = addr % (align as u64);
        let start: u64 = if rem == 0 {
            addr
        } else {
            addr + ((align as u64) - rem)
        };
        let end: u64 = self.base_virt + (self.size as u64);
        if start <= end && (bytes as u64) <= end - start {
            self.next = ((start - self.base_virt) as usize) + bytes;
            Some(start)
        } else {
            None
        }
    }
}

} // verus!
