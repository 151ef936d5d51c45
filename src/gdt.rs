//! The minimal segment descriptor table used for the switch to long mode:
//! a null descriptor, one flat code segment and one flat data segment.
use vstd::prelude::*;
use crate::dtable::{DTable, DescriptorTablePointer, le64, push_le64};

verus! {

/// Size of one segment descriptor, in bytes.
pub const DESCRIPTOR_SIZE: usize = 8;

/// Number of descriptors in the boot table.
pub const GDT_ENTRIES: usize = 3;

/// Readable (code) / writable (data) bit.
pub const SEG_READ_WRITE: u64 = 0x200_0000_0000;
/// Executable bit: set for code segments.
pub const SEG_EXECUTABLE: u64 = 0x800_0000_0000;
/// Descriptor type bit: set for code and data segments.
pub const SEG_CODE_OR_DATA: u64 = 0x1000_0000_0000;
/// Present bit.
pub const SEG_PRESENT: u64 = 0x8000_0000_0000;
/// Long-mode (64-bit) code bit.
pub const SEG_LONG_MODE: u64 = 0x20_0000_0000_0000;

/// The flat 64-bit kernel code segment descriptor.
pub const CODE_SEGMENT: u64 = 0x20_9a00_0000_0000;
/// The flat kernel data segment descriptor.
pub const DATA_SEGMENT: u64 = 0x9200_0000_0000;

/// The boot segment descriptor table.
#[derive(Clone, Copy, Debug, PartialEq, Eq, Structural)]
pub struct Gdt {
    pub null: u64,
    pub code: u64,
    pub data: u64,
}

/// The record `lgdt` reads: the table's size in bytes minus one and its
/// address.
#[derive(Clone, Copy, Debug, PartialEq, Eq, Structural)]
pub struct GdtPointer {
    /// The length of the descriptor table, minus one.
    pub limit: u16,
    /// Address of the memory holding the descriptor table.
    pub base: u64,
}

impl Gdt {
    /// The flat boot table: null, code, data.
    pub fn new() -> (r: Gdt)
        ensures
            r.null == 0,
            r.code == SEG_CODE_OR_DATA | SEG_PRESENT | SEG_READ_WRITE | SEG_EXECUTABLE
                | SEG_LONG_MODE,
            r.data == SEG_CODE_OR_DATA | SEG_PRESENT | SEG_READ_WRITE,
    {
        assert(CODE_SEGMENT == 0x1000_0000_0000u64 | 0x8000_0000_0000u64 | 0x200_0000_0000u64
            | 0x800_0000_0000u64 | 0x20_0000_0000_0000u64) by (bit_vector);
        assert(DATA_SEGMENT == 0x1000_0000_0000u64 | 0x8000_0000_0000u64 | 0x200_0000_0000u64)
            by (bit_vector);
        Gdt { null: 0, code: CODE_SEGMENT, data: DATA_SEGMENT }
    }

    /// The pointer record for this table placed at `base`.
    pub fn pointer(&self, base: u64) -> (r: GdtPointer)
        ensures
            r.limit == GDT_ENTRIES * DESCRIPTOR_SIZE - 1,
            r.base == base,
    {
        GdtPointer { limit: (GDT_ENTRIES * DESCRIPTOR_SIZE - 1) as u16, base }
    }

    /// The exact 24 bytes of the table, descriptor by descriptor.
    pub fn to_bytes(&self) -> (r: Vec<u8>)
        ensures
            r@ == le64(self.null) + le64(self.code) + le64(self.data),
    {
        let mut out: Vec<u8> = Vec::new();
        push_le64(&mut out, self.null);
        push_le64(&mut out, self.code);
        push_le64(&mut out, self.data);
        assert(out@ =~= le64(self.null) + le64(self.code) + le64(self.data));
        out
    }
}

impl DTable for Gdt {
    open spec fn spec_entry_count(&self) -> nat {
        GDT_ENTRIES as nat
    }

    open spec fn spec_entry_size(&self) -> nat {
        DESCRIPTOR_SIZE as nat
    }

    fn entry_count(&self) -> (r: usize) {
        GDT_ENTRIES
    }

    fn entry_size(&self) -> (r: usize) {
        DESCRIPTOR_SIZE
    }

    fn get_pointer(&self, base: u64) -> (r: DescriptorTablePointer) {
        DescriptorTablePointer { limit: (GDT_ENTRIES * DESCRIPTOR_SIZE - 1) as u16, base }
    }
}

} // verus!
