//! Types and helpers for the single pre-reserved L1 page-table window.
//!
//! The window is one 512-entry last-level page table whose own virtual
//! address determines the 2 MiB-aligned virtual base of the pages it maps:
//! slot `i` maps the page at `base + i * 4096`. A monotonically advancing
//! cursor turns the tail of the table into a bump allocator over slots; it
//! starts at a reserved offset, never moves backwards, and the window is
//! exhausted once it reaches 512.

use vstd::prelude::*;

use crate::errors::TeeError;

verus! {

/// Size of one page-table entry in bytes.
pub const PAGE_TABLE_ENTRY_SIZE: u64 = 8;

/// 9 bits select the entry of a page table at any level.
pub const INDEX_BITMASK: u64 = 0x1ff;

/// First slot the mapping cursor may use; the slots below it are reserved
/// for pre-existing mappings.
pub const WINDOW_RESERVED_OFFSET: usize = 384;

/// Mask keeping the frame bits of an entry: address bits without the low
/// 12 flag bits and without the top no-execute bit.
pub const ENTRY_FRAME_MASK: u64 = 0x7fff_ffff_ffff_f000;

/// Mask clearing the low 21 bits: the 2 MiB-aligned base of the virtual
/// region a L1 table covers.
pub const L1_REGION_MASK: u64 = 0xffff_ffff_ffe0_0000;

/// Depth of a page table in 4-level paging.
#[derive(Copy, Clone, Debug, PartialEq, Eq, Structural)]
pub enum Level {
    One,
    Two,
    Three,
    Four,
}

impl Level {
    /// Numeric depth of this level, `1..=4`.
    pub open spec fn spec_val(self) -> u64 {
        match self {
            Level::One => 1,
            Level::Two => 2,
            Level::Three => 3,
            Level::Four => 4,
        }
    }

    /// Numeric depth of this level, `1..=4`.
    pub fn val(self) -> (r: u64)
        ensures
            r == self.spec_val(),
            1 <= r <= 4,
    {
        match self {
            Level::One => 1,
            Level::Two => 2,
            Level::Three => 3,
            Level::Four => 4,
        }
    }
}

/// A 64-bit virtual address. Distinct from `PhysAddr`; the two are never
/// implicitly interconverted.
#[derive(Copy, Clone, Debug, PartialEq, Eq, Hash, Structural)]
pub struct VirtAddr(pub u64);

/// A 64-bit physical address. Distinct from `VirtAddr`; the two are never
/// implicitly interconverted.
#[derive(Copy, Clone, Debug, PartialEq, Eq, Hash, Structural)]
pub struct PhysAddr(pub u64);

impl VirtAddr {
    /// Constructor.
    pub fn new(val: u64) -> (r: Self)
        ensures
            r.0 == val,
    {
        VirtAddr(val)
    }

    /// Returns the inner value.
    pub fn val(self) -> (r: u64)
        ensures
            r == self.0,
    {
        self.0
    }

    /// Index into the page table of `level` that this address selects.
    pub open spec fn spec_pt_index(self, level: Level) -> u64 {
        (self.0 >> (((level.spec_val() - 1) * 9 + 12) as u64)) & INDEX_BITMASK
    }

    /// Returns the index into the page table of the given level.
    /// The returned value is in range `0..512`.
    pub fn pt_index(&self, level: Level) -> (r: u64)
        ensures
            r == self.spec_pt_index(level),
            r < 512,
    {
        let level_val = level.val();
        let bits = self.0 >> ((level_val - 1) * 9 + 12);
        let r = bits & INDEX_BITMASK;
        proof {
            let v = self.0;
            let s = ((level.spec_val() - 1) * 9 + 12) as u64;
            assert((v >> s) & 0x1ff < 512) by (bit_vector);
        }
        r
    }

    /// Byte offset into the page table of `level` of the selected entry.
    pub open spec fn spec_pt_offset(self, level: Level) -> u64 {
        mul_u64(self.spec_pt_index(level), PAGE_TABLE_ENTRY_SIZE)
    }

    /// Returns the byte offset into the page table of the given level.
    /// The returned value is in range `0..4096`.
    pub fn pt_offset(&self, level: Level) -> (r: u64)
        ensures
            r == self.spec_pt_offset(level),
            r < 4096,
    {
        self.pt_index(level) * PAGE_TABLE_ENTRY_SIZE
    }
}

impl PhysAddr {
    /// Constructor.
    pub fn new(val: u64) -> (r: Self)
        ensures
            r.0 == val,
    {
        PhysAddr(val)
    }

    /// Returns the inner value.
    pub fn val(self) -> (r: u64)
        ensures
            r == self.0,
    {
        self.0
    }
}

/// Product of two 64-bit values, which the caller knows cannot overflow.
pub open spec fn mul_u64(a: u64, b: u64) -> u64
    recommends
        a * b <= u64::MAX,
{
    (a * b) as u64
}

/// 64-bit wrapping addition.
pub open spec fn add64(a: u64, b: u64) -> u64 {
    ((a + b) % 0x1_0000_0000_0000_0000) as u64
}

/// Whether a page-table entry has its present bit set.
pub open spec fn entry_present(e: u64) -> bool {
    e & 1 == 1
}

/// The frame bits of an entry: flag bits and the no-execute bit removed.
pub open spec fn entry_frame(e: u64) -> u64 {
    e & ENTRY_FRAME_MASK
}

/// The entry written for page `k` of a mapping request: the source frame
/// advanced by `k` pages, with the requested flag bits set.
pub open spec fn mapped_entry(src: u64, k: int, flags: u64) -> u64 {
    (((src & 0xffff_ffff_ffff_f000) + k * 4096) as u64) | flags
}

/// Whether entry `e` maps the frame that `phys` lies in.
pub open spec fn frame_match(e: u64, phys: u64) -> bool {
    entry_frame(e) == (phys & 0xffff_ffff_ffff_f000)
}

/// The smallest slot index in `[from, 512)` whose entry is not present,
/// or 512 if every one of them is present.
pub open spec fn first_free_slot(entries: Seq<u64>, from: int) -> int
    recommends
        entries.len() == 512,
        0 <= from <= 512,
    decreases 512 - from
        when 0 <= from <= 512
{
    if from >= 512 {
        512
    } else if !entry_present(entries[from]) {
        from
    } else {
        first_free_slot(entries, from + 1)
    }
}

/// The smallest slot index in `[from, 512)` whose entry maps the frame of
/// `phys`, or 512 if none does.
pub open spec fn first_frame_match(entries: Seq<u64>, phys: u64, from: int) -> int
    recommends
        entries.len() == 512,
        0 <= from <= 512,
    decreases 512 - from
        when 0 <= from <= 512
{
    if from >= 512 {
        512
    } else if frame_match(entries[from], phys) {
        from
    } else {
        first_frame_match(entries, phys, from + 1)
    }
}

/// The L1 page-table window: the table's entries, the virtual base of the
/// 2 MiB region it maps, and the bump cursor over its slots.
pub struct MappingWindow {
    base: u64,
    entries: Vec<u64>,
    cursor: usize,
}

impl MappingWindow {
    /// Virtual address of the page that slot 0 maps.
    pub closed spec fn base(self) -> u64 {
        self.base
    }

    /// The 512 page-table entries.
    pub closed spec fn entries(self) -> Seq<u64> {
        self.entries@
    }

    /// The slot index the next mapping request starts scanning at.
    pub closed spec fn cursor(self) -> int {
        self.cursor as int
    }

    /// Well-formedness: full table, cursor inside it, 2 MiB-aligned base
    /// low enough that every slot's virtual address fits in 64 bits.
    pub open spec fn wf(self) -> bool {
        &&& self.entries().len() == 512
        &&& 0 <= self.cursor() <= 512
        &&& self.base() % 0x20_0000 == 0
        &&& self.base() <= 0xffff_ffff_ffe0_0000
    }

    /// Virtual address of the page that slot `i` maps.
    pub open spec fn slot_virt(self, i: int) -> u64
        recommends
            self.wf(),
            0 <= i < 512,
    {
        (self.base() + i * 4096) as u64
    }

    /// Adopts the L1 page table found at virtual address `table_addr` with
    /// the given pre-existing entries. The cursor starts at the reserved
    /// offset, on the assumption that the slots from there on are free.
    pub fn new(table_addr: u64, entries: Vec<u64>) -> (r: Self)
        requires
            entries@.len() == 512,
        ensures
            r.wf(),
            r.base() == table_addr & L1_REGION_MASK,
            r.entries() == entries@,
            r.cursor() == WINDOW_RESERVED_OFFSET,
    {
        let base = table_addr & L1_REGION_MASK;
        proof {
            assert((table_addr & 0xffff_ffff_ffe0_0000) % 0x20_0000 == 0 && (table_addr
                & 0xffff_ffff_ffe0_0000) <= 0xffff_ffff_ffe0_0000) by (bit_vector);
        }
        MappingWindow { base, entries, cursor: WINDOW_RESERVED_OFFSET }
    }

    /// Maps `size` consecutive physical pages starting at the frame of
    /// `src` into the window and returns the virtual address of the first
    /// one: the scan takes the first non-present slot at or past the
    /// cursor, each successive slot maps the next 4 KiB frame, and the
    /// cursor then skips one extra slot as a guard gap. If no slot is
    /// free, or the table ends before all `size` entries fit, nothing is
    /// written and the window is exhausted: the request fails with
    /// `ResourceExhausted` instead of handing back a null pointer.
    pub fn map_phys_rel_base_addr(&mut self, src: PhysAddr, size: usize, flags: u64) -> (r: Result<
        VirtAddr,
        TeeError,
    >)
        requires
            old(self).wf(),
            (src.0 & 0xffff_ffff_ffff_f000) + 512 * 4096 < 0x1_0000_0000_0000_0000,
        ensures
            final(self).wf(),
            final(self).base() == old(self).base(),
            ({
                let s = first_free_slot(old(self).entries(), old(self).cursor());
                if s < 512 && size <= 512 - s {
                    &&& r == Ok::<VirtAddr, TeeError>(VirtAddr(old(self).slot_virt(s)))
                    &&& final(self).entries().len() == 512
                    &&& forall|k: int|
                        0 <= k < 512 ==> final(self).entries()[k] == (if s <= k < s + size {
                            mapped_entry(src.0, k - s, flags)
                        } else {
                            old(self).entries()[k]
                        })
                    &&& final(self).cursor() == (if s + size + 1 <= 512 {
                        s + size + 1
                    } else {
                        512
                    })
                } else {
                    &&& r == Err::<VirtAddr, TeeError>(TeeError::ResourceExhausted)
                    &&& final(self).entries() == old(self).entries()
                    &&& final(self).cursor() == 512
                }
            }),
    {
        let ghost entries0 = self.entries@;
        let ghost cursor0 = self.cursor as int;
        let mut s: usize = self.cursor;
        while s < 512 && self.entries[s] & 1 == 1
            invariant
                cursor0 <= s <= 512,
                self.entries@ == entries0,
                self.entries@.len() == 512,
                first_free_slot(entries0, cursor0) == first_free_slot(entries0, s as int),
            decreases 512 - s,
        {
            s = s + 1;
        }
        assert(s < 512 ==> first_free_slot(entries0, cursor0) == s);
        assert(s == 512 ==> first_free_slot(entries0, cursor0) == 512);
        if s >= 512 || size > 512 - s {
            self.cursor = 512;
            return Err(TeeError::ResourceExhausted);
        }
        let frame = src.0 & 0xffff_ffff_ffff_f000;
        let mut k: usize = 0;
        while k < size
            invariant
                0 <= k <= size,
                s + size <= 512,
                frame == src.0 & 0xffff_ffff_ffff_f000,
                frame + 512 * 4096 < 0x1_0000_0000_0000_0000,
                self.entries@.len() == 512,
                self.base == old(self).base(),
                forall|j: int|
                    0 <= j < 512 ==> self.entries@[j] == (if s <= j < s + k {
                        mapped_entry(src.0, j - s, flags)
                    } else {
                        entries0[j]
                    }),
            decreases size - k,
        {
            let entry = (frame + (k as u64) * 4096) | flags;
            self.entries.set(s + k, entry);
            k = k + 1;
        }
        self.cursor = if s + size + 1 <= 512 {
            s + size + 1
        } else {
            512
        };
        let base = self.base;
        Ok(VirtAddr::new(base + (s as u64) * 4096))
    }

    /// What looking `virt` up in the window yields: the physical address
    /// if the indexed entry is present, nothing otherwise.
    pub open spec fn spec_translate(self, virt: u64) -> Option<u64> {
        let idx = ((virt >> 12) & 0x1ff) as int;
        if entry_present(self.entries()[idx]) {
            Some(entry_frame(self.entries()[idx]) | (virt & 0xfff))
        } else {
            None
        }
    }

    /// Looks the virtual address up in the window: the L1 index is bits
    /// 12..21 of `virt_addr`; a clear present bit reports the miss
    /// explicitly, otherwise the entry's frame bits (with the no-execute
    /// bit masked) are combined with the low 12 bits of the address.
    pub fn get_physical_address(&self, virt_addr: u64) -> (r: Option<u64>)
        requires
            self.wf(),
        ensures
            r == self.spec_translate(virt_addr),
    {
        let masked = (virt_addr >> 12) & 0x1ff;
        proof {
            assert((virt_addr >> 12) & 0x1ff < 512) by (bit_vector);
        }
        let l1_index: usize = masked as usize;
        let entry = self.entries[l1_index];
        proof {
            assert(entry & 1 == 0 || entry & 1 == 1) by (bit_vector);
        }
        if entry & 1 == 0 {
            None
        } else {
            Some((entry & ENTRY_FRAME_MASK) | (virt_addr & 0xfff))
        }
    }

    /// Scans all 512 entries for one whose frame bits match the frame of
    /// `phys_addr` and synthesizes the virtual address from the matching
    /// slot's index and the low 12 bits of `phys_addr`; reports the miss
    /// explicitly if no entry matches.
    pub fn get_virtual_address(&self, phys_addr: u64) -> (r: Option<u64>)
        requires
            self.wf(),
        ensures
            ({
                let m = first_frame_match(self.entries(), phys_addr, 0);
                if m < 512 {
                    r == Some((self.slot_virt(m) + (phys_addr & 0xfff)) as u64)
                } else {
                    r == None::<u64>
                }
            }),
    {
        let offset_within_page = phys_addr & 0xfff;
        proof {
            assert(phys_addr & 0xfff < 4096) by (bit_vector);
        }
        let mut x: usize = 0;
        while x < 512
            invariant
                0 <= x <= 512,
                self.wf(),
                offset_within_page == phys_addr & 0xfff,
                offset_within_page < 4096,
                first_frame_match(self.entries(), phys_addr, 0) == first_frame_match(
                    self.entries(),
                    phys_addr,
                    x as int,
                ),
            decreases 512 - x,
        {
            let entry = self.entries[x];
            if (entry & ENTRY_FRAME_MASK) == (phys_addr & 0xffff_ffff_ffff_f000) {
                assert(first_frame_match(self.entries(), phys_addr, x as int) == x as int);
                let base = self.base;
                return Some(base + (x as u64) * 4096 + offset_within_page);
            }
            x = x + 1;
        }
        None
    }

    /// The virtual page addresses of the present entries among the
    /// first `upto` slots, in slot order.
    pub open spec fn spec_present_addrs(self, upto: int) -> Seq<u64>
        recommends
            self.wf(),
            0 <= upto <= 512,
        decreases upto
            when 0 <= upto
    {
        if upto <= 0 {
            Seq::empty()
        } else if entry_present(self.entries()[upto - 1]) {
            self.spec_present_addrs(upto - 1).push(self.slot_virt(upto - 1))
        } else {
            self.spec_present_addrs(upto - 1)
        }
    }

    /// The virtual page addresses of all present entries, in slot order.
    /// The embedder walks these to read the mapped memory itself; the
    /// checksum over what it read is [`checksum_of_pages`].
    pub fn present_page_addrs(&self) -> (r: Vec<u64>)
        requires
            self.wf(),
        ensures
            r@ == self.spec_present_addrs(512),
    {
        let mut r: Vec<u64> = Vec::new();
        let mut x: usize = 0;
        while x < 512
            invariant
                0 <= x <= 512,
                self.wf(),
                r@ == self.spec_present_addrs(x as int),
            decreases 512 - x,
        {
            let entry = self.entries[x];
            if entry & 1 == 1 {
                let base = self.base;
                r.push(base + (x as u64) * 4096);
            }
            x = x + 1;
        }
        r
    }
}

/// Consecutive mappings are separated by the guard slot. If one
/// single-page mapping took slot `s1` of window `w0` and left window
/// `w1` (so the cursor skipped one slot past the written entry), and the
/// slot the cursor now points at was free all along, then the next
/// single-page request takes exactly that slot: its virtual address is
/// exactly `2 * 4096` bytes — the mapped page plus the guard gap — past
/// the previous one.
pub proof fn lemma_single_page_map_spacing(w0: MappingWindow, w1: MappingWindow, s1: int, s2: int)
    requires
        w0.wf(),
        w1.wf(),
        w1.base() == w0.base(),
        s1 == first_free_slot(w0.entries(), w0.cursor()),
        0 <= s1,
        s1 + 2 < 512,
        w1.cursor() == s1 + 2,
        w1.entries().len() == 512,
        w1.entries()[s1 + 2] == w0.entries()[s1 + 2],
        !entry_present(w0.entries()[s1 + 2]),
        s2 == first_free_slot(w1.entries(), w1.cursor()),
    ensures
        s2 == s1 + 2,
        w1.slot_virt(s2) == w0.slot_virt(s1) + 2 * 4096,
{
    assert(first_free_slot(w1.entries(), s1 + 2) == s1 + 2);
}

/// Wrapping sum of the words of one page, folded left from `acc`.
pub open spec fn checksum_words(acc: u64, words: Seq<u32>, i: int) -> u64
    decreases words.len() - i
        when 0 <= i <= words.len()
{
    if i >= words.len() {
        acc
    } else {
        checksum_words(add64(acc, words[i] as u64), words, i + 1)
    }
}

/// The accumulator after one present page: the wrapping word sum, then a
/// wrapping increment that marks the page as visited.
pub open spec fn checksum_page_spec(acc: u64, words: Seq<u32>) -> u64 {
    add64(checksum_words(acc, words, 0), 1)
}

/// The accumulator after folding every page of a sweep, first page first.
pub open spec fn checksum_pages_spec(acc: u64, pages: Seq<Seq<u32>>, i: int) -> u64
    decreases pages.len() - i
        when 0 <= i <= pages.len()
{
    if i >= pages.len() {
        acc
    } else {
        checksum_pages_spec(checksum_page_spec(acc, pages[i]), pages, i + 1)
    }
}

/// Folds one page of 32-bit words into the diagnostic checksum: a
/// wrapping, non-cryptographic accumulation whose only purpose is to
/// prove the memory reachable and changing.
pub fn checksum_page(acc: u64, words: &Vec<u32>) -> (r: u64)
    ensures
        r == checksum_page_spec(acc, words@),
{
    let mut a: u64 = acc;
    let mut i: usize = 0;
    let n = words.len();
    while i < n
        invariant
            0 <= i <= n,
            n == words@.len(),
            checksum_words(acc, words@, 0) == checksum_words(a, words@, i as int),
        decreases n - i,
    {
        a = a.wrapping_add(words[i] as u64);
        i = i + 1;
    }
    a.wrapping_add(1)
}

/// The diagnostic liveness checksum over the words of every present page,
/// as read back by the embedder in slot order.
pub fn checksum_of_pages(pages: &Vec<Vec<u32>>) -> (r: u64)
    ensures
        r == checksum_pages_spec(0, pages.deep_view(), 0),
{
    let mut a: u64 = 0;
    let mut i: usize = 0;
    let n = pages.len();
    while i < n
        invariant
            0 <= i <= n,
            n == pages@.len(),
            pages.deep_view().len() == pages@.len(),
            forall|j: int| 0 <= j < n ==> pages.deep_view()[j] == pages@[j]@,
            checksum_pages_spec(0, pages.deep_view(), 0) == checksum_pages_spec(
                a,
                pages.deep_view(),
                i as int,
            ),
        decreases n - i,
    {
        a = checksum_page(a, &pages[i]);
        i = i + 1;
    }
    a
}

} // verus!
