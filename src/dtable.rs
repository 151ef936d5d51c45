//! The shared capability of CPU-loadable descriptor tables, and the packed
//! pointer record that the table-load instructions read.
use vstd::prelude::*;

verus! {

/// Little-endian bytes of a 16-bit value.
pub open spec fn le16(x: u16) -> Seq<u8> {
    seq![x as u8, (x >> 8u16) as u8]
}

/// Little-endian bytes of a 32-bit value.
pub open spec fn le32(x: u32) -> Seq<u8> {
    seq![x as u8, (x >> 8u32) as u8, (x >> 16u32) as u8, (x >> 24u32) as u8]
}

/// Little-endian bytes of a 64-bit value.
pub open spec fn le64(x: u64) -> Seq<u8> {
    le32(x as u32) + le32((x >> 32u64) as u32)
}

/// Appends the little-endian bytes of `x`.
pub fn push_le16(out: &mut Vec<u8>, x: u16)
    ensures
        final(out)@ == old(out)@ + le16(x),
{
    out.push(x as u8);
    out.push((x >> 8u16) as u8);
    assert(final(out)@ =~= old(out)@ + le16(x));
}

/// Appends the little-endian bytes of `x`.
pub fn push_le32(out: &mut Vec<u8>, x: u32)
    ensures
        final(out)@ == old(out)@ + le32(x),
{
    out.push(x as u8);
    out.push((x >> 8u32) as u8);
    out.push((x >> 16u32) as u8);
    out.push((x >> 24u32) as u8);
    assert(final(out)@ =~= old(out)@ + le32(x));
}

/// Appends the little-endian bytes of `x`.
pub fn push_le64(out: &mut Vec<u8>, x: u64)
    ensures
        final(out)@ == old(out)@ + le64(x),
{
    push_le32(out, x as u32);
    push_le32(out, (x >> 32u64) as u32);
    assert(final(out)@ =~= old(out)@ + le64(x));
}

/// The record loaded by `lgdt` / `lidt`: the table's size in bytes minus
/// one, and the linear address of its first byte.
#[derive(Clone, Copy, Debug, PartialEq, Eq, Structural)]
pub struct DescriptorTablePointer {
    pub limit: u16,
    pub base: u64,
}

impl DescriptorTablePointer {
    /// The exact ten bytes the load instruction reads.
    pub fn to_bytes(&self) -> (r: Vec<u8>)
        ensures
            r@ == le16(self.limit) + le64(self.base),
            r@.len() == 10,
    {
        let mut out: Vec<u8> = Vec::new();
        push_le16(&mut out, self.limit);
        push_le64(&mut out, self.base);
        assert(out@ =~= le16(self.limit) + le64(self.base));
        out
    }
}

/// A table the CPU can load: a fixed number of fixed-size descriptors,
/// located by a [`DescriptorTablePointer`].
pub trait DTable {
    /// Number of descriptors in the table.
    spec fn spec_entry_count(&self) -> nat;

    /// Size of one descriptor, in bytes.
    spec fn spec_entry_size(&self) -> nat;

    /// Number of descriptors in the table.
    fn entry_count(&self) -> (r: usize)
        ensures
            r == self.spec_entry_count(),
    ;

    /// Size of one descriptor, in bytes.
    fn entry_size(&self) -> (r: usize)
        ensures
            r == self.spec_entry_size(),
    ;

    /// The pointer record describing this table when it sits at `base`.
    fn get_pointer(&self, base: u64) -> (r: DescriptorTablePointer)
        ensures
            r.base == base,
            r.limit == self.spec_entry_count() * self.spec_entry_size() - 1,
    ;
}

} // verus!
