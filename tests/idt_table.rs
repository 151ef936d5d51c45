use sos::dtable::{DTable, DescriptorTablePointer};
use sos::idt::{
    Gate, GateFlags, GateType, Idt, PrivilegeLevel, ENTRIES, GATE_SIZE, INT_GATE_32,
    KERNEL_CODE_SELECTOR, PRESENT, TRAP_GATE_32,
};

#[test]
fn new_table_has_every_entry_absent() {
    let idt = Idt::new();
    for v in 0..ENTRIES {
        assert!(!idt.entry(v).is_present());
        assert_eq!(idt.entry(v), Gate::absent());
    }
}

#[test]
fn add_handler_installs_a_present_gate_to_the_handler() {
    let mut idt = Idt::new();
    for (v, h) in [(0usize, 0x1000u64), (33, 0xffff_8000_1234_5678), (255, 0xdead_beef)] {
        idt.add_handler(v, h);
        let g = idt.entry(v);
        assert!(g.is_present());
        assert_eq!(g.handler(), h);
        assert_eq!(g.selector, KERNEL_CODE_SELECTOR);
        assert_eq!(g.flags.bits(), PRESENT | INT_GATE_32);
    }
    assert!(!idt.entry(1).is_present());
}

#[test]
fn add_handler_overwrites_the_previous_entry() {
    let mut idt = Idt::new();
    idt.add_handler(40, 0x1111);
    idt.add_handler(40, 0x2222);
    assert_eq!(idt.entry(40).handler(), 0x2222);
}

#[test]
fn add_gate_installs_the_gate_as_given() {
    let mut idt = Idt::new();
    let mut flags = GateType::Trap.flags();
    flags.set_dpl(PrivilegeLevel::Ring3);
    let g = Gate::new(0x4242, 0x1b, flags);
    idt.add_gate(128, g);
    assert_eq!(idt.entry(128), g);
    assert!(idt.entry(128).flags.is_trap());
    assert_eq!(idt.entry(128).flags.get_dpl(), PrivilegeLevel::Ring3);
}

#[test]
fn add_handlers_skips_null_addresses() {
    let mut idt = Idt::new();
    let handlers = [0x100u64, 0, 0x300];
    idt.add_handlers(&handlers);
    assert_eq!(idt.entry(0).handler(), 0x100);
    assert!(!idt.entry(1).is_present());
    assert_eq!(idt.entry(2).handler(), 0x300);
    assert!(!idt.entry(3).is_present());
}

#[test]
fn loaded_table_pointer_covers_all_gates() {
    let mut idt = Idt::new();
    idt.add_handler(33, 0xabcdef);
    let base: u64 = 0xffff_8000_0010_0000;
    let p = idt.get_pointer(base);
    assert_eq!(p, DescriptorTablePointer { limit: 4095, base });
    assert_eq!(p.limit as usize, ENTRIES * GATE_SIZE - 1);
    assert_eq!(idt.entry_count(), 256);
    assert_eq!(idt.entry_size(), 16);
}

#[test]
fn set_dpl_then_get_dpl_for_every_level() {
    let levels = [
        PrivilegeLevel::Ring0,
        PrivilegeLevel::Ring1,
        PrivilegeLevel::Ring2,
        PrivilegeLevel::Ring3,
    ];
    for start in [0u8, PRESENT | INT_GATE_32, PRESENT | TRAP_GATE_32 | 0x60, 0xff] {
        for l in levels {
            let mut f = GateFlags::from_bits(start);
            f.set_dpl(l);
            assert_eq!(f.get_dpl(), l);
            assert_eq!(f.is_present(), GateFlags::from_bits(start).is_present());
            assert_eq!(f.bits() & 0x1f, start & 0x1f);
        }
    }
}

#[test]
fn set_dpl_lowers_a_higher_level() {
    let mut f = GateFlags::from_bits(PRESENT | INT_GATE_32);
    f.set_dpl(PrivilegeLevel::Ring3);
    f.set_dpl(PrivilegeLevel::Ring0);
    assert_eq!(f.get_dpl(), PrivilegeLevel::Ring0);
    assert_eq!(f.bits(), 0x8e);
}

#[test]
fn set_present_touches_only_the_present_bit() {
    let mut f = GateFlags::from_bits(0x6f);
    f.set_present(true);
    assert_eq!(f.bits(), 0xef);
    f.set_present(false);
    assert_eq!(f.bits(), 0x6f);
}

#[test]
fn trap_and_interrupt_gates_are_told_apart() {
    assert!(GateType::Trap.flags().is_trap());
    assert!(!GateType::Interrupt.flags().is_trap());
    assert!(!GateType::Absent.flags().is_present());
    assert_eq!(GateType::Interrupt.flags().bits(), 0x8e);
    assert_eq!(GateType::Call.flags().bits(), 0x8c);
    assert_eq!(GateType::Trap.flags().bits(), 0x8f);
    assert_eq!(GateType::Call.name(), "Call");
}

#[test]
fn gate_bytes_match_the_hardware_layout() {
    let g = Gate::from_handler(0x1122_3344_5566_7788);
    assert_eq!(
        g.to_bytes(),
        vec![
            0x88, 0x77, 0x08, 0x00, 0x00, 0x8e, 0x66, 0x55, 0x44, 0x33, 0x22, 0x11, 0, 0, 0, 0
        ]
    );
    assert_eq!(Gate::absent().to_bytes(), vec![0u8; 16]);
}

#[test]
fn table_pointer_bytes_are_limit_then_base() {
    let p = DescriptorTablePointer { limit: 0x0fff, base: 0x0102_0304_0506_0708 };
    assert_eq!(p.to_bytes(), vec![0xff, 0x0f, 0x08, 0x07, 0x06, 0x05, 0x04, 0x03, 0x02, 0x01]);
}

#[test]
fn privilege_levels_and_custom_gates() {
    assert_eq!(PrivilegeLevel::from_ring(2), PrivilegeLevel::Ring2);
    assert_eq!(PrivilegeLevel::from_ring(7), PrivilegeLevel::Ring3);
    assert_eq!(PrivilegeLevel::Ring1.ring(), 1);
    let g = Gate::new(0xffff_ffff_8000_0000, 0x10, GateFlags::from_bits(0x8f));
    assert_eq!(g.handler(), 0xffff_ffff_8000_0000);
    assert_eq!(g.offset_lower, 0);
    assert_eq!(g.offset_mid, 0x8000);
    assert_eq!(g.offset_upper, 0xffff_ffff);
    assert_eq!(g.selector, 0x10);
    assert!(g.flags.contains(0x0f));
    assert!(!g.flags.contains(0x10));
}

#[test]
fn installs_chain() {
    let mut idt = Idt::new();
    idt.add_handler(32, 0x10).add_handler(33, 0x20).add_gate(34, Gate::from_handler(0x30));
    assert_eq!(idt.entry(32).handler(), 0x10);
    assert_eq!(idt.entry(33).handler(), 0x20);
    assert_eq!(idt.entry(34).handler(), 0x30);
    let mut f = GateFlags::from_bits(0x0e);
    assert_eq!(f.set_present(true).bits(), 0x8e);
    assert_eq!(f.set_dpl(PrivilegeLevel::Ring2).get_dpl(), PrivilegeLevel::Ring2);
    assert_eq!(f.bits(), 0xce);
}
