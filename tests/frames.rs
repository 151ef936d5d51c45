use sos::addr::{MemoryRegion, PAddr, PhysicalPage, PAGE_SIZE};

#[test]
fn containing_frame_holds_the_address() {
    for a in [0u64, 1, 4095, 4096, 4097, 0x1234_5678, u64::MAX] {
        let f = PhysicalPage::containing_addr(PAddr::from_raw(a));
        let base = f.base_addr().as_u64();
        assert!(base <= a);
        assert!((a - base) < PAGE_SIZE);
    }
}

#[test]
fn containing_frame_number_is_address_over_page_size() {
    let f = PhysicalPage::containing_addr(PAddr::from_raw(0x5000 + 17));
    assert_eq!(f.number, 5);
    assert_eq!(f.base_addr(), PAddr(0x5000));
}

#[test]
fn base_address_of_largest_frame() {
    let f = PhysicalPage { number: 0xf_ffff_ffff_ffff };
    assert_eq!(f.base_addr().as_u64(), 0xffff_ffff_ffff_f000);
}

#[test]
fn add_then_sub_gives_the_frame_back() {
    let f = PhysicalPage { number: 42 };
    for n in [0usize, 1, 7, 1000] {
        assert_eq!((f + n) - n, f);
    }
    assert_eq!((f + 8usize).number, 50);
    assert_eq!((f - 2usize).number, 40);
}

#[test]
fn add_assign_and_sub_assign_move_the_frame() {
    let mut f = PhysicalPage { number: 10 };
    f.add_assign(5);
    assert_eq!(f.number, 15);
    f.sub_assign(15);
    assert_eq!(f.number, 0);
}

#[test]
fn region_from_linker_bounds() {
    let r = MemoryRegion::from_bounds(PAddr(0x20_0000), PAddr(0x30_0000)).unwrap();
    assert_eq!(r.start, PAddr(0x20_0000));
    assert_eq!(r.length, 0x10_0000);
    assert!(r.contains(PAddr(0x20_0000)));
    assert!(r.contains(PAddr(0x2f_ffff)));
    assert!(!r.contains(PAddr(0x30_0000)));
    assert!(!r.contains(PAddr(0x1f_ffff)));
    assert!(MemoryRegion::from_bounds(PAddr(5), PAddr(4)).is_none());
    assert_eq!(MemoryRegion::from_bounds(PAddr(5), PAddr(5)).unwrap().length, 0);
}
