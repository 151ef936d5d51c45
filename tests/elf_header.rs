use sos::elf::{
    Header,
    Class, DataEncoding, HeaderRepr, Ident, Machine, OsAbi, Type, TypeRepr, Version,
};

fn header64() -> Vec<u8> {
    let mut b = vec![0u8; 64];
    b[..4].copy_from_slice(&[0x7f, b'E', b'L', b'F']);
    b[4] = 2;
    b[5] = 1;
    b[6] = 1;
    b[7] = 3;
    b[16..18].copy_from_slice(&2u16.to_le_bytes());
    b[18..20].copy_from_slice(&0x3eu16.to_le_bytes());
    b[20..24].copy_from_slice(&1u32.to_le_bytes());
    b[24..32].copy_from_slice(&0x40_1000u64.to_le_bytes());
    b[32..40].copy_from_slice(&64u64.to_le_bytes());
    b[40..48].copy_from_slice(&128u64.to_le_bytes());
    b[58..60].copy_from_slice(&64u16.to_le_bytes());
    b[60..62].copy_from_slice(&3u16.to_le_bytes());
    b[62..64].copy_from_slice(&2u16.to_le_bytes());
    b
}

#[test]
fn ident_of_a_valid_file() {
    let id = Ident::from_bytes(&header64()).unwrap();
    assert!(id.check_magic());
    assert!(id.is_valid());
    assert_eq!(id.class, Class::Elf64);
    assert_eq!(id.encoding, DataEncoding::LittleEndian);
    assert_eq!(id.version, Version::Current);
    assert_eq!(id.abi, OsAbi::Linux);
}

#[test]
fn ident_rejects_bad_magic_class_or_encoding() {
    let mut b = header64();
    b[0] = 0;
    assert!(!Ident::from_bytes(&b).unwrap().check_magic());
    let mut b = header64();
    b[4] = 0;
    assert!(!Ident::from_bytes(&b).unwrap().is_valid());
    let mut b = header64();
    b[5] = 7;
    let id = Ident::from_bytes(&b).unwrap();
    assert_eq!(id.encoding, DataEncoding::Invalid);
    assert!(!id.is_valid());
    assert!(Ident::from_bytes(&b[..15]).is_none());
}

#[test]
fn class_and_encoding_validity() {
    assert!(!Class::Invalid.is_valid());
    assert!(Class::Elf32.is_valid());
    assert!(Class::Elf64.is_valid());
    assert!(!DataEncoding::Invalid.is_valid());
    assert!(DataEncoding::BigEndian.is_valid());
}

#[test]
fn type_field_decoding() {
    assert_eq!(TypeRepr(0).as_type(), Type::NoFileType);
    assert_eq!(TypeRepr(2).as_type(), Type::Executable);
    assert_eq!(TypeRepr(4).as_type(), Type::Core);
    assert_eq!(TypeRepr(0xfe00).as_type(), Type::Other(0xfe00));
}

#[test]
fn header64_fields_are_read_little_endian() {
    let h = HeaderRepr::<u64>::from_slice(&header64()).unwrap();
    assert_eq!(h.get_type(), Type::Executable);
    assert_eq!(h.machine, Machine::X86_64);
    assert_eq!(h.entry_point, 0x40_1000);
    assert_eq!(h.entry_point(), 0x40_1000);
    assert_eq!(h.sh_offset(), 128);
    assert_eq!(h.ph_offset(), 64);
    assert_eq!(h.sh_str_idx(), 2);
    assert_eq!(h.machine(), Machine::X86_64);
    assert!(h.ident().is_valid());
    assert_eq!(h.ph_offset, 64);
    assert_eq!(h.sh_offset, 128);
    assert_eq!(h.sh_entry_size, 64);
    assert_eq!(h.sh_count, 3);
    assert_eq!(h.sh_str_idx, 2);
    assert!(HeaderRepr::<u64>::from_slice(&header64()[..63]).is_err());
}

#[test]
fn header32_needs_fifty_two_bytes() {
    let mut b = vec![0u8; 52];
    b[..4].copy_from_slice(&[0x7f, b'E', b'L', b'F']);
    b[4] = 1;
    b[24..28].copy_from_slice(&0x8048000u32.to_le_bytes());
    b[46..48].copy_from_slice(&40u16.to_le_bytes());
    let h = HeaderRepr::<u32>::from_slice(&b).unwrap();
    assert_eq!(h.entry_point, 0x8048000);
    assert_eq!(h.entry_point(), 0x8048000);
    assert_eq!(h.get_type(), Type::NoFileType);
    assert_eq!(h.sh_entry_size, 40);
    assert_eq!(h.machine, Machine::NoMachine);
    assert!(HeaderRepr::<u32>::from_slice(&b[..51]).is_err());
}

#[test]
fn section_headers_are_cut_from_the_table() {
    let mut file = header64();
    file.resize(128 + 3 * 64, 0);
    for (i, byte) in file[128 + 64..128 + 128].iter_mut().enumerate() {
        *byte = i as u8;
    }
    let h = HeaderRepr::<u64>::from_slice(&file).unwrap();
    let s = h.parse_section(&file, 1).unwrap();
    assert_eq!(s, (0..64u8).collect::<Vec<u8>>());
    assert_eq!(h.parse_section(&file, 3), Err("Section header out of bounds."));
    assert_eq!(h.parse_section(&file, 0xff00), Err("Cannot parse reserved section."));
}

#[test]
fn section_of_the_wrong_class_is_refused() {
    let mut file = header64();
    file[4] = 1;
    file.resize(128 + 3 * 64, 0);
    let h = HeaderRepr::<u64>::from_slice(&file).unwrap();
    assert_eq!(
        h.parse_section(&file, 0),
        Err("Cannot parse 32-bit section from 64-bit ELF file.")
    );
    file[4] = 0;
    let h = HeaderRepr::<u64>::from_slice(&file).unwrap();
    assert_eq!(h.parse_section(&file, 0), Err("Invalid ELF class (ELFCLASSNONE)."));
}

#[test]
fn abi_machine_and_version_bytes() {
    assert_eq!(OsAbi::from_byte(0), OsAbi::SystemV);
    assert_eq!(OsAbi::from_byte(0x0c), OsAbi::OpenBsd);
    assert_eq!(OsAbi::from_byte(0x61), OsAbi::Other(0x61));
    assert_eq!(Machine::from_u16(0x3e), Machine::X86_64);
    assert_eq!(Machine::from_u16(0xb7), Machine::AArch64);
    assert_eq!(Machine::from_u16(0x99), Machine::Other(0x99));
    assert_eq!(Version::from_byte(1), Version::Current);
    assert_eq!(Version::from_byte(2), Version::Invalid);
    assert_eq!(Class::from_byte(3), Class::Invalid);
    assert_eq!(DataEncoding::from_byte(2), DataEncoding::BigEndian);
}
