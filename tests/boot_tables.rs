use sos::dtable::DTable;
use sos::gdt::{Gdt, CODE_SEGMENT, DATA_SEGMENT};
use sos::addr::PhysicalPage;
use sos::paging::{
    map_segment,
    create_page_tables, is_valid_table_address, ModeSwitchStep, Table, BOOT_PAGE_SIZE, ENTRY_ADDRESS_MASK, TABLE_LENGTH,
};

#[test]
fn identity_map_covers_the_page_directory() {
    let mut pml4: Table = [0; TABLE_LENGTH];
    let mut pdp: Table = [0; TABLE_LENGTH];
    let mut pd: Table = [0; TABLE_LENGTH];
    create_page_tables(&mut pml4, &mut pdp, &mut pd, 0x10_0000, 0x10_1000, 0x10_2000);
    for (i, e) in pd.iter().enumerate() {
        assert_eq!(e & ENTRY_ADDRESS_MASK, i as u64 * BOOT_PAGE_SIZE);
        assert_eq!(e & 0x83, 0x83);
    }
    assert_eq!(pd[1], 0x20_0083);
    assert_eq!(pd[511], 511 * 0x20_0000 + 0x83);
}

#[test]
fn recursive_map_points_at_the_top_table() {
    let mut pml4: Table = [0; TABLE_LENGTH];
    let mut pdp: Table = [0; TABLE_LENGTH];
    let mut pd: Table = [0; TABLE_LENGTH];
    create_page_tables(&mut pml4, &mut pdp, &mut pd, 0x10_0000, 0x10_1000, 0x10_2000);
    assert_eq!(pml4[511] & ENTRY_ADDRESS_MASK, 0x10_0000);
    assert_eq!(pml4[511], 0x10_0003);
    assert_eq!(pml4[0], 0x10_1003);
    assert_eq!(pdp[0], 0x10_2003);
    assert!(pml4[1..511].iter().all(|&e| e == 0));
    assert!(pdp[1..].iter().all(|&e| e == 0));
}

#[test]
fn mode_switch_steps_run_in_order() {
    let mut s = ModeSwitchStep::LoadTableBase;
    assert_eq!(s.register_value(0, 0x10_0000), 0x10_0000);
    s = s.next();
    assert_eq!(s, ModeSwitchStep::EnableAddressExtension);
    assert_eq!(s.register_value(0x0, 0), 0x20);
    s = s.next();
    assert_eq!(s.register_value(0x1, 0), 0x101);
    s = s.next();
    assert_eq!(s.register_value(0x11, 0), 0x8001_0011);
    s = s.next();
    assert_eq!(s, ModeSwitchStep::Done);
    assert_eq!(s.next(), ModeSwitchStep::Done);
}

#[test]
fn gdt_holds_flat_code_and_data_segments() {
    let gdt = Gdt::new();
    assert_eq!(gdt.null, 0);
    assert_eq!(gdt.code, (1 << 44) | (1 << 47) | (1 << 41) | (1 << 43) | (1 << 53));
    assert_eq!(gdt.data, (1 << 44) | (1 << 47) | (1 << 41));
    assert_eq!(gdt.code, CODE_SEGMENT);
    assert_eq!(gdt.data, DATA_SEGMENT);
    assert_eq!(gdt.pointer(0x5000).limit, 23);
    assert_eq!(gdt.get_pointer(0x5000).limit, 23);
    assert_eq!(gdt.get_pointer(0x5000).base, 0x5000);
    let bytes = gdt.to_bytes();
    assert_eq!(bytes.len(), 24);
    assert_eq!(&bytes[8..16], &CODE_SEGMENT.to_le_bytes());
}

#[test]
fn table_addresses_must_be_page_aligned_and_below_the_address_limit() {
    assert!(is_valid_table_address(0x10_0000));
    assert!(!is_valid_table_address(0x10_0008));
    assert!(!is_valid_table_address(0x10_0000_0000_0000));
}

#[test]
fn map_segment_installs_one_entry_per_frame() {
    let mut table: Table = [0; TABLE_LENGTH];
    table[9] = 0x7;
    let frames = [PhysicalPage { number: 0x100 }, PhysicalPage { number: 0x205 }];
    map_segment(&mut table, 10, &frames, 0x2);
    assert_eq!(table[10], 0x10_0003);
    assert_eq!(table[11], 0x20_5003);
    assert_eq!(table[9], 0x7);
    assert_eq!(table[12], 0);
}
