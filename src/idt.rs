//! The interrupt descriptor table and its gates.
use vstd::prelude::*;
use crate::exceptions::{
    Diagnosis, InterruptContext, PageFaultError, PAGE_FAULT_VECTOR, diagnosis_of,
};
use crate::dtable::{DTable, DescriptorTablePointer, le16, le32, push_le16, push_le32};

verus! {

/// Number of entries in the interrupt descriptor table.
pub const ENTRIES: usize = 256;

/// Size of one 64-bit gate, in bytes.
pub const GATE_SIZE: usize = 16;

/// Selector of the kernel code segment that gates transfer control to.
pub const KERNEL_CODE_SELECTOR: u16 = 8;

/// A CPU protection ring.
#[derive(Clone, Copy, Debug, PartialEq, Eq, Structural)]
pub enum PrivilegeLevel {
    Ring0,
    Ring1,
    Ring2,
    Ring3,
}

impl PrivilegeLevel {
    /// The ring number, 0 to 3.
    pub open spec fn spec_ring(self) -> u8 {
        match self {
            PrivilegeLevel::Ring0 => 0,
            PrivilegeLevel::Ring1 => 1,
            PrivilegeLevel::Ring2 => 2,
            PrivilegeLevel::Ring3 => 3,
        }
    }

    /// The ring number, 0 to 3.
    pub fn ring(&self) -> (r: u8)
        ensures
            r == self.spec_ring(),
    {
        match self {
            PrivilegeLevel::Ring0 => 0,
            PrivilegeLevel::Ring1 => 1,
            PrivilegeLevel::Ring2 => 2,
            PrivilegeLevel::Ring3 => 3,
        }
    }

    /// The level of ring `r`; only the two low bits are read.
    pub fn from_ring(r: u8) -> (l: PrivilegeLevel)
        ensures
            l.spec_ring() == r & 3,
    {
        let low = r & 3;
        assert(low < 4) by (bit_vector)
            requires
                low == r & 3,
        ;
        if low == 0 {
            PrivilegeLevel::Ring0
        } else if low == 1 {
            PrivilegeLevel::Ring1
        } else if low == 2 {
            PrivilegeLevel::Ring2
        } else {
            PrivilegeLevel::Ring3
        }
    }
}

/// Present bit of a gate's attribute byte.
pub const PRESENT: u8 = 0x80;
/// The two-bit descriptor privilege level field of the attribute byte.
pub const DPL: u8 = 0x60;
/// Privilege level field holding ring 0.
pub const DPL_RING_0: u8 = 0x00;
/// Privilege level field holding ring 1.
pub const DPL_RING_1: u8 = 0x20;
/// Privilege level field holding ring 2.
pub const DPL_RING_2: u8 = 0x40;
/// Privilege level field holding ring 3.
pub const DPL_RING_3: u8 = 0x60;
/// Storage-segment bit (clear in every gate).
pub const SEGMENT: u8 = 0x10;
/// Set where a gate points to a 32/64-bit handler.
pub const LONG_MODE: u8 = 0x08;
/// Type bits of a 16-bit interrupt gate.
pub const INT_GATE_16: u8 = 0x06;
/// Type bits of an interrupt gate to a 32/64-bit handler.
pub const INT_GATE_32: u8 = 0x0e;
/// Type bits of a 16-bit trap gate.
pub const TRAP_GATE_16: u8 = 0x07;
/// Type bits of a trap gate to a 32/64-bit handler.
pub const TRAP_GATE_32: u8 = 0x0f;
/// Type bits of a call gate.
pub const CALL_GATE_32: u8 = 0x0c;
/// Type bits of a task gate.
pub const TASK_GATE_32: u8 = 0x0d;

/// The kinds of gate, each with the attribute byte that encodes it.
#[derive(Clone, Copy, Debug, PartialEq, Eq, Structural)]
pub enum GateType {
    Absent,
    Interrupt,
    Call,
    Trap,
}

impl GateType {
    /// The attribute byte of a ring-0 gate of this kind.
    pub open spec fn spec_bits(self) -> u8 {
        match self {
            GateType::Absent => 0,
            GateType::Interrupt => PRESENT | INT_GATE_32,
            GateType::Call => PRESENT | CALL_GATE_32,
            GateType::Trap => PRESENT | TRAP_GATE_32,
        }
    }

    /// The attribute byte of a ring-0 gate of this kind.
    pub fn flags(&self) -> (r: GateFlags)
        ensures
            r.bits == self.spec_bits(),
    {
        match self {
            GateType::Absent => GateFlags { bits: 0 },
            GateType::Interrupt => GateFlags { bits: PRESENT | INT_GATE_32 },
            GateType::Call => GateFlags { bits: PRESENT | CALL_GATE_32 },
            GateType::Trap => GateFlags { bits: PRESENT | TRAP_GATE_32 },
        }
    }

    /// The name of this kind of gate.
    pub fn name(&self) -> (r: &'static str)
        ensures
            r@ == match self {
                GateType::Absent => "Absent"@,
                GateType::Interrupt => "Interrupt"@,
                GateType::Call => "Call"@,
                GateType::Trap => "Trap"@,
            },
    {
        match self {
            GateType::Absent => "Absent",
            GateType::Interrupt => "Interrupt",
            GateType::Call => "Call",
            GateType::Trap => "Trap",
        }
    }
}

/// The attribute byte of a gate: present bit, privilege level and type.
#[derive(Clone, Copy, Debug, PartialEq, Eq, Structural)]
pub struct GateFlags {
    pub bits: u8,
}

impl GateFlags {
    /// Flags with exactly the given bits.
    pub fn from_bits(bits: u8) -> (r: GateFlags)
        ensures
            r.bits == bits,
    {
        GateFlags { bits }
    }

    /// The raw attribute byte.
    pub fn bits(&self) -> (r: u8)
        ensures
            r == self.bits,
    {
        self.bits
    }

    /// Whether every bit of `mask` is set.
    pub fn contains(&self, mask: u8) -> (r: bool)
        ensures
            r == (self.bits & mask == mask),
    {
        self.bits & mask == mask
    }

    /// Returns true if this is a trap gate (all three trap type bits set).
    pub fn is_trap(&self) -> (r: bool)
        ensures
            r == (self.bits & TRAP_GATE_16 == TRAP_GATE_16),
    {
        self.contains(TRAP_GATE_16)
    }

    /// Returns true if this gate points to a present handler.
    pub fn is_present(&self) -> (r: bool)
        ensures
            r == (self.bits & PRESENT != 0),
    {
        self.bits & PRESENT != 0
    }

    /// Sets or clears the present bit, leaving every other bit as it was.
    pub fn set_present(&mut self, present: bool) -> (r: &mut GateFlags)
        ensures
            r.bits & PRESENT != 0 <==> present,
            r.bits & !PRESENT == old(self).bits & !PRESENT,
            *final(self) == *final(r),
    {
        let b = self.bits;
        if present {
            self.bits = b | PRESENT;
            assert((b | 0x80u8) & 0x80u8 != 0 && (b | 0x80u8) & !0x80u8 == b & !0x80u8)
                by (bit_vector);
        } else {
            self.bits = b & !PRESENT;
            assert((b & !0x80u8) & 0x80u8 == 0 && (b & !0x80u8) & !0x80u8 == b & !0x80u8)
                by (bit_vector);
        }
        self
    }

    /// The ring held in the two-bit privilege level field.
    pub open spec fn dpl(self) -> u8 {
        (self.bits & DPL) >> 5u8
    }

    /// These flags with the privilege level field holding `dpl` and every
    /// other bit as it was.
    pub open spec fn with_dpl(self, dpl: PrivilegeLevel) -> GateFlags {
        GateFlags { bits: (self.bits & !DPL) | (dpl.spec_ring() << 5u8) }
    }

    /// The privilege level held in the two-bit field.
    pub fn get_dpl(&self) -> (r: PrivilegeLevel)
        ensures
            r.spec_ring() == self.dpl(),
    {
        let b = self.bits;
        let field = (b & DPL) >> 5u8;
        assert(field & 3 == field) by (bit_vector)
            requires
                field == (b & 0x60u8) >> 5u8,
        ;
        PrivilegeLevel::from_ring(field)
    }

    /// Writes `dpl` into the two-bit field, leaving every other bit as it
    /// was.
    pub fn set_dpl(&mut self, dpl: PrivilegeLevel) -> (r: &mut GateFlags)
        ensures
            *r == old(self).with_dpl(dpl),
            *final(self) == *final(r),
    {
        self.bits = (self.bits & !DPL) | (dpl.ring() << 5u8);
        self
    }
}

/// Setting a gate's privilege level and reading it back gives that level,
/// and the present bit and the type bits are untouched.
pub proof fn lemma_set_dpl_get_dpl(g: GateFlags, dpl: PrivilegeLevel)
    ensures
        g.with_dpl(dpl).dpl() == dpl.spec_ring(),
        (g.with_dpl(dpl).bits & PRESENT != 0) == (g.bits & PRESENT != 0),
        g.with_dpl(dpl).bits & 0x1f == g.bits & 0x1f,
{
    let b = g.bits;
    let r = dpl.spec_ring();
    let nb = g.with_dpl(dpl).bits;
    assert(r < 4);
    assert((nb & 0x60u8) >> 5u8 == r && (nb & 0x80u8 != 0) == (b & 0x80u8 != 0) && nb & 0x1fu8
        == b & 0x1fu8) by (bit_vector)
        requires
            nb == (b & !0x60u8) | (r << 5u8),
            r < 4,
    ;
}

/// The handler address a gate's three offset fields spell.
pub open spec fn gate_offset(lower: u16, mid: u16, upper: u32) -> u64 {
    (lower as u64) | ((mid as u64) << 16u64) | ((upper as u64) << 32u64)
}

/// One 64-bit interrupt descriptor table entry, field by field as the CPU
/// lays it out.
#[derive(Clone, Copy, Debug, PartialEq, Eq, Structural)]
pub struct Gate {
    /// Bits 0..16 of the handler address.
    pub offset_lower: u16,
    /// Code segment selector the handler runs in.
    pub selector: u16,
    /// Interrupt stack table index (zero: none).
    pub ist: u8,
    /// Present bit, privilege level and gate type.
    pub flags: GateFlags,
    /// Bits 16..32 of the handler address.
    pub offset_mid: u16,
    /// Bits 32..64 of the handler address.
    pub offset_upper: u32,
    /// Must be zero.
    pub reserved: u32,
}

impl Gate {
    /// A gate with every field zero.
    pub open spec fn absent_spec() -> Gate {
        Gate {
            offset_lower: 0,
            selector: 0,
            ist: 0,
            flags: GateFlags { bits: 0 },
            offset_mid: 0,
            offset_upper: 0,
            reserved: 0,
        }
    }

    /// The handler address this gate points to.
    pub open spec fn spec_handler(self) -> u64 {
        gate_offset(self.offset_lower, self.offset_mid, self.offset_upper)
    }

    /// An absent gate: every field zero. Its vector firing raises a
    /// general-protection fault.
    pub fn absent() -> (r: Gate)
        ensures
            r == Gate::absent_spec(),
    {
        assert(0u8 & 0x80u8 == 0) by (bit_vector);
        Gate {
            offset_lower: 0,
            selector: 0,
            ist: 0,
            flags: GateFlags { bits: 0 },
            offset_mid: 0,
            offset_upper: 0,
            reserved: 0,
        }
    }

    /// A gate to `handler` in the kernel code segment with the given
    /// attribute byte.
    pub fn new(handler: u64, selector: u16, flags: GateFlags) -> (r: Gate)
        ensures
            r.spec_handler() == handler,
            r.offset_lower == handler as u16,
            r.offset_mid == (handler >> 16u64) as u16,
            r.offset_upper == (handler >> 32u64) as u32,
            r.selector == selector,
            r.flags == flags,
            r.ist == 0,
            r.reserved == 0,
    {
        let lower = handler as u16;
        let mid = (handler >> 16u64) as u16;
        let upper = (handler >> 32u64) as u32;
        assert(gate_offset(lower, mid, upper) == handler) by (bit_vector)
            requires
                lower == handler as u16,
                mid == (handler >> 16u64) as u16,
                upper == (handler >> 32u64) as u32,
        ;
        Gate {
            offset_lower: lower,
            selector,
            ist: 0,
            flags,
            offset_mid: mid,
            offset_upper: upper,
            reserved: 0,
        }
    }

    /// The present, ring-0 interrupt gate to `handler` in the kernel code
    /// segment.
    pub open spec fn from_handler_spec(handler: u64) -> Gate {
        Gate {
            offset_lower: handler as u16,
            selector: KERNEL_CODE_SELECTOR,
            ist: 0,
            flags: GateFlags { bits: PRESENT | INT_GATE_32 },
            offset_mid: (handler >> 16u64) as u16,
            offset_upper: (handler >> 32u64) as u32,
            reserved: 0,
        }
    }

    /// A present, ring-0 interrupt gate to `handler` in the kernel code
    /// segment.
    pub fn from_handler(handler: u64) -> (r: Gate)
        ensures
            r == Gate::from_handler_spec(handler),
            r.spec_handler() == handler,
            r.selector == KERNEL_CODE_SELECTOR,
            r.flags.bits == PRESENT | INT_GATE_32,
            r.flags.bits & PRESENT != 0,
            r.ist == 0,
            r.reserved == 0,
    {
        assert((0x80u8 | 0x0eu8) & 0x80u8 != 0) by (bit_vector);
        Gate::new(handler, KERNEL_CODE_SELECTOR, GateFlags { bits: PRESENT | INT_GATE_32 })
    }

    /// The handler address this gate points to.
    pub fn handler(&self) -> (r: u64)
        ensures
            r == self.spec_handler(),
    {
        (self.offset_lower as u64) | ((self.offset_mid as u64) << 16u64) | (
        (self.offset_upper as u64) << 32u64)
    }

    /// Whether this gate points to a present handler.
    pub fn is_present(&self) -> (r: bool)
        ensures
            r == (self.flags.bits & PRESENT != 0),
    {
        self.flags.is_present()
    }

    /// The exact sixteen bytes of this gate as the CPU reads them.
    pub fn to_bytes(&self) -> (r: Vec<u8>)
        ensures
            r@ == le16(self.offset_lower) + le16(self.selector) + seq![self.ist, self.flags.bits]
                + le16(self.offset_mid) + le32(self.offset_upper) + le32(self.reserved),
            r@.len() == GATE_SIZE,
    {
        let mut out: Vec<u8> = Vec::new();
        push_le16(&mut out, self.offset_lower);
        push_le16(&mut out, self.selector);
        out.push(self.ist);
        out.push(self.flags.bits);
        push_le16(&mut out, self.offset_mid);
        push_le32(&mut out, self.offset_upper);
        push_le32(&mut out, self.reserved);
        assert(out@ =~= le16(self.offset_lower) + le16(self.selector) + seq![
            self.ist,
            self.flags.bits,
        ] + le16(self.offset_mid) + le32(self.offset_upper) + le32(self.reserved));
        out
    }
}

/// An interrupt descriptor table: one gate per vector.
pub struct Idt {
    entries: [Gate; ENTRIES],
}

impl View for Idt {
    type V = Seq<Gate>;

    closed spec fn view(&self) -> Seq<Gate> {
        self.entries@
    }
}

impl Idt {
    /// A table whose 256 gates are all absent.
    pub fn new() -> (r: Idt)
        ensures
            r@.len() == ENTRIES,
            forall|v: int| 0 <= v < ENTRIES ==> #[trigger] r@[v] == Gate::absent_spec(),
            forall|v: int| 0 <= v < ENTRIES ==> !(#[trigger] r@[v].flags.bits & PRESENT != 0),
    {
        assert(0u8 & 0x80u8 == 0) by (bit_vector);
        let g = Gate::absent();
        Idt { entries: [g; ENTRIES] }
    }

    /// Returns what is installed for vector `idx`.
    pub fn entry(&self, idx: usize) -> (r: Gate)
        requires
            idx < ENTRIES,
        ensures
            r == self@[idx as int],
    {
        self.entries[idx]
    }

    /// Installs a present interrupt gate to `handler` at vector `idx`,
    /// replacing whatever was there. A vector past 255 is a caller error,
    /// ruled out by the precondition rather than reported at run time.
    pub fn add_handler(&mut self, idx: usize, handler: u64) -> (r: &mut Idt)
        requires
            idx < ENTRIES,
        ensures
            r@ == old(self)@.update(idx as int, Gate::from_handler_spec(handler)),
            r@[idx as int].spec_handler() == handler,
            r@[idx as int].flags.bits & PRESENT != 0,
            *final(self) == *final(r),
    {
        assert((0x80u8 | 0x0eu8) & 0x80u8 != 0) by (bit_vector);
        let g = Gate::from_handler(handler);
        self.add_gate(idx, g)
    }

    /// Installs an interrupt gate for each nonzero handler address of
    /// `handlers`, at the vector equal to its position; vectors whose
    /// address is zero, or that lie past the end of `handlers`, keep their
    /// gate.
    pub fn add_handlers(&mut self, handlers: &[u64])
        requires
            handlers@.len() <= ENTRIES,
        ensures
            final(self)@.len() == old(self)@.len(),
            forall|v: int|
                0 <= v < old(self)@.len() ==> #[trigger] final(self)@[v] == if v < handlers@.len()
                    && handlers@[v] != 0 {
                    Gate::from_handler_spec(handlers@[v])
                } else {
                    old(self)@[v]
                },
    {
        let n = handlers.len();
        let mut i: usize = 0;
        while i < n
            invariant
                n == handlers@.len(),
                n <= ENTRIES,
                i <= n,
                self@.len() == old(self)@.len(),
                old(self)@.len() == ENTRIES,
                forall|v: int|
                    0 <= v < old(self)@.len() ==> #[trigger] self@[v] == if v < i && handlers@[v]
                        != 0 {
                        Gate::from_handler_spec(handlers@[v])
                    } else {
                        old(self)@[v]
                    },
            decreases n - i,
        {
            let h = handlers[i];
            if h != 0 {
                let g = Gate::from_handler(h);
                self.add_gate(i, g);
            }
            i = i + 1;
        }
    }

    /// Decides what a captured CPU exception means: vector 14 is a page
    /// fault with its error code decoded, the other exception vectors are
    /// fatal, and vectors past 31 are no exception.
    pub fn handle_cpu_exception(state: &InterruptContext) -> (r: Diagnosis)
        ensures
            r == diagnosis_of(*state),
    {
        match state.exception() {
            None => Diagnosis::NotAnException { vector: state.int_id },
            Some(info) => {
                if state.int_id == PAGE_FAULT_VECTOR {
                    Diagnosis::PageFault {
                        info,
                        error: PageFaultError::from_error_code(state.err_no),
                    }
                } else {
                    Diagnosis::Fatal { info, vector: state.int_id, error_code: state.err_no }
                }
            },
        }
    }

    /// Installs `gate` at vector `idx`, replacing whatever was there.
    pub fn add_gate(&mut self, idx: usize, gate: Gate) -> (r: &mut Idt)
        requires
            idx < ENTRIES,
        ensures
            r@ == old(self)@.update(idx as int, gate),
            *final(self) == *final(r),
    {
        self.entries[idx] = gate;
        self
    }
}

impl DTable for Idt {
    open spec fn spec_entry_count(&self) -> nat {
        ENTRIES as nat
    }

    open spec fn spec_entry_size(&self) -> nat {
        GATE_SIZE as nat
    }

    fn entry_count(&self) -> (r: usize) {
        ENTRIES
    }

    fn entry_size(&self) -> (r: usize) {
        GATE_SIZE
    }

    fn get_pointer(&self, base: u64) -> (r: DescriptorTablePointer) {
        DescriptorTablePointer { limit: (ENTRIES * GATE_SIZE - 1) as u16, base }
    }
}

} // verus!
