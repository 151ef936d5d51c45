//! The boot page-table hierarchy and the register values of the switch to
//! long mode.
use vstd::prelude::*;
use crate::addr::{PhysicalPage, frame_base};

verus! {

/// Number of entries in one page table.
pub const TABLE_LENGTH: usize = 512;

/// One level of the translation hierarchy.
pub type Table = [u64; TABLE_LENGTH];

/// Entry bit: the entry may be dereferenced.
pub const ENTRY_PRESENT: u64 = 0x1;
/// Entry bit: writes are allowed through the entry.
pub const ENTRY_WRITABLE: u64 = 0x2;
/// Entry bit: the entry maps a large page directly.
pub const ENTRY_HUGE: u64 = 0x80;
/// Flags of an entry that links to the next table level.
pub const TABLE_FLAGS: u64 = 0x3;
/// Flags of an identity-mapping directory entry.
pub const IDENTITY_FLAGS: u64 = 0x83;
/// Bits of an entry that hold the physical address.
pub const ENTRY_ADDRESS_MASK: u64 = 0x000f_ffff_ffff_f000;
/// Size of the large pages mapped by the boot page directory (2 MiB).
pub const BOOT_PAGE_SIZE: u64 = 0x20_0000;

/// Whether `addr` is a physical address a table entry can hold: aligned to
/// 4 KiB and below 2^52.
pub open spec fn is_table_address(addr: u64) -> bool {
    addr & !ENTRY_ADDRESS_MASK == 0
}

/// Whether `addr` is a physical address a table entry can hold.
pub fn is_valid_table_address(addr: u64) -> (r: bool)
    ensures
        r == is_table_address(addr),
{
    addr & !ENTRY_ADDRESS_MASK == 0
}

/// The physical address held in entry `e`.
pub open spec fn entry_address(e: u64) -> u64 {
    e & ENTRY_ADDRESS_MASK
}

/// Whether every bit of `flags` is set in entry `e`.
pub open spec fn entry_has(e: u64, flags: u64) -> bool {
    e & flags == flags
}

/// Entry `i` of the identity-mapping page directory.
pub open spec fn identity_entry(i: int) -> u64 {
    ((i * BOOT_PAGE_SIZE) as u64) | IDENTITY_FLAGS
}

/// Links the boot tables and identity-maps the first 1 GiB:
/// the last top-level slot maps the top-level table itself, top-level slot
/// 0 links the directory-pointer table, its slot 0 links the page
/// directory, and directory slot `i` maps the large page at
/// `i * BOOT_PAGE_SIZE`. No other slot changes.
pub fn create_page_tables(
    pml4: &mut Table,
    pdp: &mut Table,
    pd: &mut Table,
    pml4_addr: u64,
    pdp_addr: u64,
    pd_addr: u64,
)
    requires
        is_table_address(pml4_addr),
        is_table_address(pdp_addr),
        is_table_address(pd_addr),
    ensures
        final(pml4)@ == old(pml4)@.update(TABLE_LENGTH - 1, pml4_addr | TABLE_FLAGS).update(
            0,
            pdp_addr | TABLE_FLAGS,
        ),
        final(pdp)@ == old(pdp)@.update(0, pd_addr | TABLE_FLAGS),
        forall|i: int| 0 <= i < TABLE_LENGTH ==> #[trigger] final(pd)@[i] == identity_entry(i),
        entry_address(final(pml4)@[TABLE_LENGTH - 1]) == pml4_addr,
        forall|i: int|
            0 <= i < TABLE_LENGTH ==> entry_address(#[trigger] final(pd)@[i]) == i * BOOT_PAGE_SIZE
                && entry_has(final(pd)@[i], ENTRY_PRESENT | ENTRY_WRITABLE | ENTRY_HUGE),
{
    // recursive map: the last top-level slot points back at the table
    pml4[TABLE_LENGTH - 1] = pml4_addr | TABLE_FLAGS;
    pml4[0] = pdp_addr | TABLE_FLAGS;
    pdp[0] = pd_addr | TABLE_FLAGS;
    let mut i: usize = 0;
    while i < TABLE_LENGTH
        invariant
            i <= TABLE_LENGTH,
            forall|j: int| 0 <= j < i ==> #[trigger] pd@[j] == identity_entry(j),
        decreases TABLE_LENGTH - i,
    {
        assert((i as u64) * BOOT_PAGE_SIZE == i * BOOT_PAGE_SIZE) by (nonlinear_arith)
            requires
                i < 512,
        ;
        pd[i] = (i as u64) * BOOT_PAGE_SIZE | IDENTITY_FLAGS;
        i = i + 1;
    }
    proof {
        lemma_link_entry(pml4_addr);
        assert forall|i: int| 0 <= i < TABLE_LENGTH implies entry_address(#[trigger] pd@[i]) == i
            * BOOT_PAGE_SIZE && entry_has(pd@[i], ENTRY_PRESENT | ENTRY_WRITABLE | ENTRY_HUGE) by {
            lemma_identity_entry(i);
        }
    }
}

/// The identity map: directory entry `i` holds the address `i` large pages
/// up, and is present, writable and huge.
pub proof fn lemma_identity_entry(i: int)
    requires
        0 <= i < TABLE_LENGTH,
    ensures
        entry_address(identity_entry(i)) == i * BOOT_PAGE_SIZE,
        entry_has(identity_entry(i), ENTRY_PRESENT | ENTRY_WRITABLE | ENTRY_HUGE),
{
    let a = (i * BOOT_PAGE_SIZE) as u64;
    assert(a == i * 0x20_0000 && a % 0x20_0000 == 0) by (nonlinear_arith)
        requires
            0 <= i < 512,
            a == (i * 0x20_0000) as u64,
    ;
    assert((a | 0x83u64) & 0x000f_ffff_ffff_f000u64 == a && (a | 0x83u64) & 0x83u64 == 0x83u64)
        by (bit_vector)
        requires
            a < 0x4000_0000,
            a % 0x20_0000 == 0,
    ;
    assert(ENTRY_PRESENT | ENTRY_WRITABLE | ENTRY_HUGE == 0x83u64) by (bit_vector);
}

/// The recursive map: a link entry built from a table address decodes back
/// to that address, present and writable.
pub proof fn lemma_link_entry(addr: u64)
    requires
        is_table_address(addr),
    ensures
        entry_address(addr | TABLE_FLAGS) == addr,
        entry_has(addr | TABLE_FLAGS, ENTRY_PRESENT | ENTRY_WRITABLE),
{
    assert((addr | 3u64) & 0x000f_ffff_ffff_f000u64 == addr && (addr | 3u64) & 3u64 == 3u64)
        by (bit_vector)
        requires
            addr & !0x000f_ffff_ffff_f000u64 == 0,
    ;
    assert(ENTRY_PRESENT | ENTRY_WRITABLE == 3u64) by (bit_vector);
}

/// Whether `flags` holds only permission bits: no address bit is set.
pub open spec fn is_permission_flags(flags: u64) -> bool {
    flags & ENTRY_ADDRESS_MASK == 0
}

/// The leaf entry mapping `frame` with `flags`.
pub open spec fn leaf_entry(frame: PhysicalPage, flags: u64) -> u64 {
    frame_base(frame.number) | flags | ENTRY_PRESENT
}

/// Maps a segment: slot `first + k` of `table` gets a present entry for
/// `frames[k]` with the permission bits `flags`; no other slot changes.
/// Each frame must lie below 2^52 bytes, so that its address fits an entry.
pub fn map_segment(table: &mut Table, first: usize, frames: &[PhysicalPage], flags: u64)
    requires
        first + frames@.len() <= TABLE_LENGTH,
        is_permission_flags(flags),
        forall|k: int| 0 <= k < frames@.len() ==> #[trigger] frames@[k].number < 0x100_0000_0000,
    ensures
        forall|i: int|
            0 <= i < TABLE_LENGTH ==> #[trigger] final(table)@[i] == if first <= i < first
                + frames@.len() {
                leaf_entry(frames@[i - first], flags)
            } else {
                old(table)@[i]
            },
        forall|k: int|
            0 <= k < frames@.len() ==> entry_address(#[trigger] final(table)@[first + k])
                == frames@[k].number * 4096 && entry_has(final(table)@[first + k], ENTRY_PRESENT),
{
    let n = frames.len();
    let mut k: usize = 0;
    while k < n
        invariant
            n == frames@.len(),
            first + n <= TABLE_LENGTH,
            k <= n,
            is_permission_flags(flags),
            forall|j: int| 0 <= j < frames@.len() ==> #[trigger] frames@[j].number < 0x100_0000_0000,
            forall|i: int|
                0 <= i < TABLE_LENGTH ==> #[trigger] table@[i] == if first <= i < first + k {
                    leaf_entry(frames@[i - first], flags)
                } else {
                    old(table)@[i]
                },
            forall|j: int|
                0 <= j < k ==> entry_address(#[trigger] table@[first + j]) == frames@[j].number
                    * 4096 && entry_has(table@[first + j], ENTRY_PRESENT),
        decreases n - k,
    {
        let frame = frames[k];
        let base = frame.base_addr().0;
        let e = base | flags | ENTRY_PRESENT;
        proof {
            let num = frame.number;
            assert(base == num * 4096);
            assert(e & 0x000f_ffff_ffff_f000u64 == base && e & 1u64 == 1u64) by (bit_vector)
                requires
                    e == base | flags | 1u64,
                    flags & 0x000f_ffff_ffff_f000u64 == 0,
                    base == num * 4096,
                    num < 0x100_0000_0000,
            ;
        }
        table[first + k] = e;
        k = k + 1;
    }
}

/// Bit of CR4 that enables physical-address extension.
pub const CR4_PAE: u64 = 0x20;
/// Bit of the EFER model-specific register that enables long mode.
pub const EFER_LONG_MODE: u64 = 0x100;
/// Bit of CR0 that enables paging.
pub const CR0_PAGING: u64 = 0x8000_0000;
/// Bit of CR0 that makes read-only pages read-only in ring 0 too.
pub const CR0_WRITE_PROTECT: u64 = 0x1_0000;

/// The steps of the switch to long mode, in the one order that works.
#[derive(Clone, Copy, Debug, PartialEq, Eq, Structural)]
pub enum ModeSwitchStep {
    /// Load the top-level table's address into CR3.
    LoadTableBase,
    /// Set the physical-address-extension bit of CR4.
    EnableAddressExtension,
    /// Set the long-mode bit of EFER.
    EnableLongMode,
    /// Set the paging and write-protect bits of CR0.
    EnablePaging,
    /// Translation is active; nothing is left to do.
    Done,
}

impl ModeSwitchStep {
    /// The position of this step in the sequence, 0 to 4.
    pub open spec fn rank(self) -> nat {
        match self {
            ModeSwitchStep::LoadTableBase => 0,
            ModeSwitchStep::EnableAddressExtension => 1,
            ModeSwitchStep::EnableLongMode => 2,
            ModeSwitchStep::EnablePaging => 3,
            ModeSwitchStep::Done => 4,
        }
    }

    /// The step that follows this one once it has been carried out; `Done`
    /// stays `Done`.
    pub fn next(&self) -> (r: ModeSwitchStep)
        ensures
            self.rank() < 4 ==> r.rank() == self.rank() + 1,
            self.rank() == 4 ==> r == ModeSwitchStep::Done,
    {
        match self {
            ModeSwitchStep::LoadTableBase => ModeSwitchStep::EnableAddressExtension,
            ModeSwitchStep::EnableAddressExtension => ModeSwitchStep::EnableLongMode,
            ModeSwitchStep::EnableLongMode => ModeSwitchStep::EnablePaging,
            ModeSwitchStep::EnablePaging => ModeSwitchStep::Done,
            ModeSwitchStep::Done => ModeSwitchStep::Done,
        }
    }

    /// The value to write back for the register this step edits, given the
    /// value read from it: CR3 receives `table_base`, the others keep every
    /// bit and gain their enable bits. `Done` edits nothing and hands the
    /// value back.
    pub fn register_value(&self, current: u64, table_base: u64) -> (r: u64)
        ensures
            *self == ModeSwitchStep::LoadTableBase ==> r == table_base,
            *self == ModeSwitchStep::EnableAddressExtension ==> r == current | CR4_PAE,
            *self == ModeSwitchStep::EnableLongMode ==> r == current | EFER_LONG_MODE,
            *self == ModeSwitchStep::EnablePaging ==> r == current | CR0_PAGING
                | CR0_WRITE_PROTECT,
            *self == ModeSwitchStep::Done ==> r == current,
    {
        match self {
            ModeSwitchStep::LoadTableBase => table_base,
            ModeSwitchStep::EnableAddressExtension => current | CR4_PAE,
            ModeSwitchStep::EnableLongMode => current | EFER_LONG_MODE,
            ModeSwitchStep::EnablePaging => current | CR0_PAGING | CR0_WRITE_PROTECT,
            ModeSwitchStep::Done => current,
        }
    }
}

} // verus!
