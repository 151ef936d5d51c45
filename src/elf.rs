//! The ELF file identifier and file header, read from the bytes of a file.
use vstd::prelude::*;

verus! {

/// Size of the identifier (`e_ident`) at the start of every ELF file.
pub const IDENT_SIZE: usize = 16;

/// The four magic bytes every ELF file starts with.
pub open spec fn elf_magic() -> Seq<u8> {
    seq![0x7fu8, 0x45u8, 0x4cu8, 0x46u8]
}

/// Identifies the class of the ELF file.
#[derive(Clone, Copy, Debug, PartialEq, Eq, Structural)]
pub enum Class {
    /// Invalid class (`ELFCLASSNONE`).
    Invalid,
    /// 32-bit file (`ELFCLASS32`).
    Elf32,
    /// 64-bit file (`ELFCLASS64`).
    Elf64,
}

impl Class {
    /// The class byte `b` stands for; bytes other than 1 and 2 name no
    /// valid class and read as `Invalid`.
    pub open spec fn spec_from_byte(b: u8) -> Class {
        if b == 1 {
            Class::Elf32
        } else if b == 2 {
            Class::Elf64
        } else {
            Class::Invalid
        }
    }

    /// The class byte `b` stands for.
    pub fn from_byte(b: u8) -> (r: Class)
        ensures
            r == Class::spec_from_byte(b),
    {
        if b == 1 {
            Class::Elf32
        } else if b == 2 {
            Class::Elf64
        } else {
            Class::Invalid
        }
    }

    /// Returns true if the class field for this file is valid.
    pub fn is_valid(&self) -> (r: bool)
        ensures
            r == (*self != Class::Invalid),
    {
        match self {
            Class::Invalid => false,
            _ => true,
        }
    }
}

/// Identifies the data encoding of the ELF file.
#[derive(Clone, Copy, Debug, PartialEq, Eq, Structural)]
pub enum DataEncoding {
    /// Invalid data encoding (`ELFDATANONE`).
    Invalid,
    /// Two's-complement little-endian (`ELFDATA2LSB`).
    LittleEndian,
    /// Two's-complement big-endian (`ELFDATA2MSB`).
    BigEndian,
}

impl DataEncoding {
    /// The encoding byte `b` stands for; bytes other than 1 and 2 read as
    /// `Invalid`.
    pub open spec fn spec_from_byte(b: u8) -> DataEncoding {
        if b == 1 {
            DataEncoding::LittleEndian
        } else if b == 2 {
            DataEncoding::BigEndian
        } else {
            DataEncoding::Invalid
        }
    }

    /// The encoding byte `b` stands for.
    pub fn from_byte(b: u8) -> (r: DataEncoding)
        ensures
            r == DataEncoding::spec_from_byte(b),
    {
        if b == 1 {
            DataEncoding::LittleEndian
        } else if b == 2 {
            DataEncoding::BigEndian
        } else {
            DataEncoding::Invalid
        }
    }

    /// Returns true if the data encoding field for this file is valid.
    pub fn is_valid(&self) -> (r: bool)
        ensures
            r == (*self != DataEncoding::Invalid),
    {
        match self {
            DataEncoding::Invalid => false,
            _ => true,
        }
    }
}

/// Operating system ABI a file was compiled for.
#[derive(Clone, Copy, Debug, PartialEq, Eq, Structural)]
pub enum OsAbi {
    /// System V; the byte 0 also stands for "none".
    SystemV,
    HpUx,
    NetBsd,
    Linux,
    Solaris,
    Aix,
    Irix,
    FreeBsd,
    OpenBsd,
    OpenVms,
    /// Any other ABI byte.
    Other(u8),
}

impl OsAbi {
    /// The ABI byte `b` stands for.
    pub open spec fn spec_from_byte(b: u8) -> OsAbi {
        match b {
            0x00 => OsAbi::SystemV,
            0x01 => OsAbi::HpUx,
            0x02 => OsAbi::NetBsd,
            0x03 => OsAbi::Linux,
            0x06 => OsAbi::Solaris,
            0x07 => OsAbi::Aix,
            0x08 => OsAbi::Irix,
            0x09 => OsAbi::FreeBsd,
            0x0c => OsAbi::OpenBsd,
            0x0d => OsAbi::OpenVms,
            _ => OsAbi::Other(b),
        }
    }

    /// The ABI byte `b` stands for.
    pub fn from_byte(b: u8) -> (r: OsAbi)
        ensures
            r == OsAbi::spec_from_byte(b),
    {
        match b {
            0x00 => OsAbi::SystemV,
            0x01 => OsAbi::HpUx,
            0x02 => OsAbi::NetBsd,
            0x03 => OsAbi::Linux,
            0x06 => OsAbi::Solaris,
            0x07 => OsAbi::Aix,
            0x08 => OsAbi::Irix,
            0x09 => OsAbi::FreeBsd,
            0x0c => OsAbi::OpenBsd,
            0x0d => OsAbi::OpenVms,
            _ => OsAbi::Other(b),
        }
    }
}

/// Identifies the version of the ELF file.
#[derive(Clone, Copy, Debug, PartialEq, Eq, Structural)]
pub enum Version {
    Invalid,
    Current,
}

impl Version {
    /// The version byte `b` stands for; any byte but 1 reads as `Invalid`.
    pub fn from_byte(b: u8) -> (r: Version)
        ensures
            r == (if b == 1 {
                Version::Current
            } else {
                Version::Invalid
            }),
    {
        if b == 1 {
            Version::Current
        } else {
            Version::Invalid
        }
    }
}

/// The ELF file identifier (`e_ident`).
#[derive(Clone, Copy, Debug)]
pub struct Ident {
    /// Must be the ELF magic, `[0x7f, E, L, F]`.
    pub magic: [u8; 4],
    /// 32- or 64-bit.
    pub class: Class,
    /// Little- or big-endian.
    pub encoding: DataEncoding,
    pub version: Version,
    pub abi: OsAbi,
    /// ABI version (often just padding).
    pub abi_version: u8,
}

impl Ident {
    /// Reads the identifier from the first sixteen bytes of `input`;
    /// `None` where `input` is shorter.
    pub fn from_bytes(input: &[u8]) -> (r: Option<Ident>)
        ensures
            input@.len() < IDENT_SIZE ==> r.is_none(),
            input@.len() >= IDENT_SIZE ==> r == Some(ident_of(input@)),
    {
        if input.len() < IDENT_SIZE {
            return None;
        }
        Some(read_ident(input))
    }

    /// Whether the magic bytes are the ELF magic.
    pub fn check_magic(&self) -> (r: bool)
        ensures
            r == (self.magic@ == elf_magic()),
    {
        let r = self.magic[0] == 0x7f && self.magic[1] == 0x45 && self.magic[2] == 0x4c
            && self.magic[3] == 0x46;
        assert(r ==> self.magic@ =~= elf_magic());
        r
    }

    /// Returns true if the identifier identifies a valid ELF file: the magic
    /// is right, the class is 32- or 64-bit, and the encoding is little- or
    /// big-endian.
    pub fn is_valid(&self) -> (r: bool)
        ensures
            r == (self.magic@ == elf_magic() && self.class != Class::Invalid && self.encoding
                != DataEncoding::Invalid),
    {
        self.check_magic() && self.class.is_valid() && self.encoding.is_valid()
    }
}

/// The object file type.
#[derive(Clone, Copy, Debug, PartialEq, Eq, Structural)]
pub enum Type {
    NoFileType,
    Relocatable,
    Executable,
    SharedObject,
    Core,
    Other(u16),
}

/// The object file type the `e_type` value `n` stands for.
pub open spec fn type_of(n: u16) -> Type {
    match n {
        0 => Type::NoFileType,
        1 => Type::Relocatable,
        2 => Type::Executable,
        3 => Type::SharedObject,
        4 => Type::Core,
        n => Type::Other(n),
    }
}

/// The raw `e_type` field.
#[derive(Clone, Copy, Debug, PartialEq, Eq, Structural)]
pub struct TypeRepr(pub u16);

impl TypeRepr {
    /// The object file type this field stands for.
    pub fn as_type(&self) -> (r: Type)
        ensures
            r == type_of(self.0),
    {
        match self.0 {
            0 => Type::NoFileType,
            1 => Type::Relocatable,
            2 => Type::Executable,
            3 => Type::SharedObject,
            4 => Type::Core,
            anything => Type::Other(anything),
        }
    }
}

/// The target instruction set architecture.
#[derive(Clone, Copy, Debug, PartialEq, Eq, Structural)]
pub enum Machine {
    NoMachine,
    Sparc,
    X86,
    Mips,
    PowerPc,
    Arm,
    SuperH,
    Ia64,
    X86_64,
    AArch64,
    /// Any other machine number.
    Other(u16),
}

impl Machine {
    /// The machine number `m` stands for.
    pub open spec fn spec_from_u16(m: u16) -> Machine {
        match m {
            0x00 => Machine::NoMachine,
            0x02 => Machine::Sparc,
            0x03 => Machine::X86,
            0x08 => Machine::Mips,
            0x14 => Machine::PowerPc,
            0x28 => Machine::Arm,
            0x2a => Machine::SuperH,
            0x32 => Machine::Ia64,
            0x3e => Machine::X86_64,
            0xb7 => Machine::AArch64,
            _ => Machine::Other(m),
        }
    }

    /// The machine number `m` stands for.
    pub fn from_u16(m: u16) -> (r: Machine)
        ensures
            r == Machine::spec_from_u16(m),
    {
        match m {
            0x00 => Machine::NoMachine,
            0x02 => Machine::Sparc,
            0x03 => Machine::X86,
            0x08 => Machine::Mips,
            0x14 => Machine::PowerPc,
            0x28 => Machine::Arm,
            0x2a => Machine::SuperH,
            0x32 => Machine::Ia64,
            0x3e => Machine::X86_64,
            0xb7 => Machine::AArch64,
            _ => Machine::Other(m),
        }
    }
}

/// The 16-bit little-endian value at `at`.
pub open spec fn le_u16_at(s: Seq<u8>, at: int) -> u16 {
    (s[at] as u16) | ((s[at + 1] as u16) << 8u16)
}

/// The 32-bit little-endian value at `at`.
pub open spec fn le_u32_at(s: Seq<u8>, at: int) -> u32 {
    (le_u16_at(s, at) as u32) | ((le_u16_at(s, at + 2) as u32) << 16u32)
}

/// The 64-bit little-endian value at `at`.
pub open spec fn le_u64_at(s: Seq<u8>, at: int) -> u64 {
    (le_u32_at(s, at) as u64) | ((le_u32_at(s, at + 4) as u64) << 32u64)
}

/// Reads the 16-bit little-endian value at `at`.
pub fn read_u16(input: &[u8], at: usize) -> (r: u16)
    requires
        at + 2 <= input@.len(),
    ensures
        r == le_u16_at(input@, at as int),
{
    (input[at] as u16) | ((input[at + 1] as u16) << 8u16)
}

/// Reads the 32-bit little-endian value at `at`.
pub fn read_u32(input: &[u8], at: usize) -> (r: u32)
    requires
        at + 4 <= input@.len(),
    ensures
        r == le_u32_at(input@, at as int),
{
    let len = input.len();
    assert(at + 2 < len);
    (read_u16(input, at) as u32) | ((read_u16(input, at + 2) as u32) << 16u32)
}

/// Reads the 64-bit little-endian value at `at`.
pub fn read_u64(input: &[u8], at: usize) -> (r: u64)
    requires
        at + 8 <= input@.len(),
    ensures
        r == le_u64_at(input@, at as int),
{
    let len = input.len();
    assert(at + 4 < len);
    (read_u32(input, at) as u64) | ((read_u32(input, at + 4) as u64) << 32u64)
}

/// Section indices from here up are reserved (`SHN_LORESERVE`).
pub const SHN_LORESERVE: u16 = 0xff00;

/// Size of a 64-bit ELF file header, in bytes.
pub const HEADER64_SIZE: usize = 64;

/// Size of a 32-bit ELF file header, in bytes.
pub const HEADER32_SIZE: usize = 52;

/// Whether the section header table entry `idx`, `size` bytes long, of a
/// table at offset `offset` lies inside a file of `len` bytes.
pub open spec fn section_in_bounds(offset: int, idx: int, size: int, len: int) -> bool {
    offset + idx * size + size <= len
}

/// An ELF file header whose address-sized fields are of type `W`: `u64`
/// in 64-bit files, `u32` in 32-bit ones.
#[derive(Clone, Copy, Debug)]
pub struct HeaderRepr<W> {
    /// The file identifier.
    pub ident: Ident,
    pub elftype: TypeRepr,
    pub machine: Machine,
    /// Object file version (`e_version`).
    pub version: u32,
    /// Program entry point.
    pub entry_point: W,
    /// Offset of the program header table.
    pub ph_offset: W,
    /// Offset of the section header table.
    pub sh_offset: W,
    pub flags: u32,
    pub header_size: u16,
    pub ph_entry_size: u16,
    pub ph_count: u16,
    pub sh_entry_size: u16,
    pub sh_count: u16,
    /// Index of the section name string table.
    pub sh_str_idx: u16,
}

/// The identifier held in the first sixteen bytes of `s`.
pub open spec fn ident_of(s: Seq<u8>) -> Ident {
    Ident {
        magic: [s[0], s[1], s[2], s[3]],
        class: Class::spec_from_byte(s[4]),
        encoding: DataEncoding::spec_from_byte(s[5]),
        version: if s[6] == 1 {
            Version::Current
        } else {
            Version::Invalid
        },
        abi: OsAbi::spec_from_byte(s[7]),
        abi_version: s[8],
    }
}

/// The 64-bit header held in the first 64 bytes of `s`.
pub open spec fn header64_of(s: Seq<u8>) -> HeaderRepr<u64> {
    HeaderRepr {
        ident: ident_of(s),
        elftype: TypeRepr(le_u16_at(s, 16)),
        machine: Machine::spec_from_u16(le_u16_at(s, 18)),
        version: le_u32_at(s, 20),
        entry_point: le_u64_at(s, 24),
        ph_offset: le_u64_at(s, 32),
        sh_offset: le_u64_at(s, 40),
        flags: le_u32_at(s, 48),
        header_size: le_u16_at(s, 52),
        ph_entry_size: le_u16_at(s, 54),
        ph_count: le_u16_at(s, 56),
        sh_entry_size: le_u16_at(s, 58),
        sh_count: le_u16_at(s, 60),
        sh_str_idx: le_u16_at(s, 62),
    }
}

/// The 32-bit header held in the first 52 bytes of `s`.
pub open spec fn header32_of(s: Seq<u8>) -> HeaderRepr<u32> {
    HeaderRepr {
        ident: ident_of(s),
        elftype: TypeRepr(le_u16_at(s, 16)),
        machine: Machine::spec_from_u16(le_u16_at(s, 18)),
        version: le_u32_at(s, 20),
        entry_point: le_u32_at(s, 24),
        ph_offset: le_u32_at(s, 28),
        sh_offset: le_u32_at(s, 32),
        flags: le_u32_at(s, 36),
        header_size: le_u16_at(s, 40),
        ph_entry_size: le_u16_at(s, 42),
        ph_count: le_u16_at(s, 44),
        sh_entry_size: le_u16_at(s, 46),
        sh_count: le_u16_at(s, 48),
        sh_str_idx: le_u16_at(s, 50),
    }
}

/// Reads the identifier; `input` holds at least sixteen bytes.
fn read_ident(input: &[u8]) -> (r: Ident)
    requires
        input@.len() >= IDENT_SIZE,
    ensures
        r == ident_of(input@),
{
    let magic: [u8; 4] = [input[0], input[1], input[2], input[3]];
    let r = Ident {
        magic,
        class: Class::from_byte(input[4]),
        encoding: DataEncoding::from_byte(input[5]),
        version: Version::from_byte(input[6]),
        abi: OsAbi::from_byte(input[7]),
        abi_version: input[8],
    };
    assert(r.magic@ =~= ident_of(input@).magic@);
    r
}

impl HeaderRepr<u64> {
    /// The bytes of section header `idx`: `sh_entry_size` bytes starting
    /// `idx * sh_entry_size` bytes into the section header table. Fails on a
    /// reserved index, on a table entry that runs past the end of `input`,
    /// and on a file whose class is not Elf64.
    pub fn parse_section(&self, input: &[u8], idx: u16) -> (r: Result<Vec<u8>, &'static str>)
        ensures
            idx >= SHN_LORESERVE ==> r == Err::<Vec<u8>, &'static str>(
                "Cannot parse reserved section.",
            ),
            idx < SHN_LORESERVE && !section_in_bounds(
                self.sh_offset as int,
                idx as int,
                self.sh_entry_size as int,
                input@.len() as int,
            ) ==> r == Err::<Vec<u8>, &'static str>("Section header out of bounds."),
            idx < SHN_LORESERVE && section_in_bounds(
                self.sh_offset as int,
                idx as int,
                self.sh_entry_size as int,
                input@.len() as int,
            ) ==> match self.ident.class {
                Class::Invalid => r == Err::<Vec<u8>, &'static str>(
                    "Invalid ELF class (ELFCLASSNONE).",
                ),
                Class::Elf32 => r == Err::<Vec<u8>, &'static str>("Cannot parse 32-bit section from 64-bit ELF file."),
                Class::Elf64 => r is Ok && r.unwrap()@ == input@.subrange(
                    self.sh_offset + idx * self.sh_entry_size,
                    self.sh_offset + idx * self.sh_entry_size + self.sh_entry_size,
                ),
            },
    {
        if idx >= SHN_LORESERVE {
            return Err("Cannot parse reserved section.");
        }
        let len = input.len();
        assert(idx * self.sh_entry_size <= 0xffff * 0xffff) by (nonlinear_arith)
            requires
                idx <= 0xffff,
                self.sh_entry_size <= 0xffff,
        ;
        let start_in_table = (idx as u64) * (self.sh_entry_size as u64);
        let end_in_table = start_in_table + self.sh_entry_size as u64;
        if (self.sh_offset as u64) > (len as u64) || end_in_table > (len as u64) - (
        self.sh_offset as u64) {
            return Err("Section header out of bounds.");
        }
        let start = (self.sh_offset as u64 + start_in_table) as usize;
        let end = (self.sh_offset as u64 + end_in_table) as usize;
        match self.ident.class {
            Class::Invalid => Err("Invalid ELF class (ELFCLASSNONE)."),
            Class::Elf32 => Err("Cannot parse 32-bit section from 64-bit ELF file."),
            Class::Elf64 => Ok(vstd::slice::slice_to_vec(vstd::slice::slice_subrange(input, start, end))),
        }
    }

    /// Reads a 64-bit ELF file header from the start of `input`.
    pub fn from_slice(input: &[u8]) -> (r: Result<HeaderRepr<u64>, &'static str>)
        ensures
            input@.len() >= HEADER64_SIZE ==> r == Ok::<HeaderRepr<u64>, &'static str>(
                header64_of(input@),
            ),
            input@.len() < HEADER64_SIZE ==> r is Err,
    {
        if input.len() < HEADER64_SIZE {
            return Err("Input too short to extract ELF header");
        }
        Ok(
            HeaderRepr {
                ident: read_ident(input),
                elftype: TypeRepr(read_u16(input, 16)),
                machine: Machine::from_u16(read_u16(input, 18)),
                version: read_u32(input, 20),
                entry_point: read_u64(input, 24),
                ph_offset: read_u64(input, 32),
                sh_offset: read_u64(input, 40),
                flags: read_u32(input, 48),
                header_size: read_u16(input, 52),
                ph_entry_size: read_u16(input, 54),
                ph_count: read_u16(input, 56),
                sh_entry_size: read_u16(input, 58),
                sh_count: read_u16(input, 60),
                sh_str_idx: read_u16(input, 62),
            },
        )
    }
}

impl HeaderRepr<u32> {
    /// The bytes of section header `idx`: `sh_entry_size` bytes starting
    /// `idx * sh_entry_size` bytes into the section header table. Fails on a
    /// reserved index, on a table entry that runs past the end of `input`,
    /// and on a file whose class is not Elf32.
    pub fn parse_section(&self, input: &[u8], idx: u16) -> (r: Result<Vec<u8>, &'static str>)
        ensures
            idx >= SHN_LORESERVE ==> r == Err::<Vec<u8>, &'static str>(
                "Cannot parse reserved section.",
            ),
            idx < SHN_LORESERVE && !section_in_bounds(
                self.sh_offset as int,
                idx as int,
                self.sh_entry_size as int,
                input@.len() as int,
            ) ==> r == Err::<Vec<u8>, &'static str>("Section header out of bounds."),
            idx < SHN_LORESERVE && section_in_bounds(
                self.sh_offset as int,
                idx as int,
                self.sh_entry_size as int,
                input@.len() as int,
            ) ==> match self.ident.class {
                Class::Invalid => r == Err::<Vec<u8>, &'static str>(
                    "Invalid ELF class (ELFCLASSNONE).",
                ),
                Class::Elf64 => r == Err::<Vec<u8>, &'static str>("Cannot parse 64-bit section from 32-bit ELF file."),
                Class::Elf32 => r is Ok && r.unwrap()@ == input@.subrange(
                    self.sh_offset + idx * self.sh_entry_size,
                    self.sh_offset + idx * self.sh_entry_size + self.sh_entry_size,
                ),
            },
    {
        if idx >= SHN_LORESERVE {
            return Err("Cannot parse reserved section.");
        }
        let len = input.len();
        assert(idx * self.sh_entry_size <= 0xffff * 0xffff) by (nonlinear_arith)
            requires
                idx <= 0xffff,
                self.sh_entry_size <= 0xffff,
        ;
        let start_in_table = (idx as u64) * (self.sh_entry_size as u64);
        let end_in_table = start_in_table + self.sh_entry_size as u64;
        if (self.sh_offset as u64) > (len as u64) || end_in_table > (len as u64) - (
        self.sh_offset as u64) {
            return Err("Section header out of bounds.");
        }
        let start = (self.sh_offset as u64 + start_in_table) as usize;
        let end = (self.sh_offset as u64 + end_in_table) as usize;
        match self.ident.class {
            Class::Invalid => Err("Invalid ELF class (ELFCLASSNONE)."),
            Class::Elf64 => Err("Cannot parse 64-bit section from 32-bit ELF file."),
            Class::Elf32 => Ok(vstd::slice::slice_to_vec(vstd::slice::slice_subrange(input, start, end))),
        }
    }

    /// Reads a 32-bit ELF file header from the start of `input`.
    pub fn from_slice(input: &[u8]) -> (r: Result<HeaderRepr<u32>, &'static str>)
        ensures
            input@.len() >= HEADER32_SIZE ==> r == Ok::<HeaderRepr<u32>, &'static str>(
                header32_of(input@),
            ),
            input@.len() < HEADER32_SIZE ==> r is Err,
    {
        if input.len() < HEADER32_SIZE {
            return Err("Input too short to extract ELF header");
        }
        Ok(
            HeaderRepr {
                ident: read_ident(input),
                elftype: TypeRepr(read_u16(input, 16)),
                machine: Machine::from_u16(read_u16(input, 18)),
                version: read_u32(input, 20),
                entry_point: read_u32(input, 24),
                ph_offset: read_u32(input, 28),
                sh_offset: read_u32(input, 32),
                flags: read_u32(input, 36),
                header_size: read_u16(input, 40),
                ph_entry_size: read_u16(input, 42),
                ph_count: read_u16(input, 44),
                sh_entry_size: read_u16(input, 46),
                sh_count: read_u16(input, 48),
                sh_str_idx: read_u16(input, 50),
            },
        )
    }
}

/// Field accessors shared by the 32- and 64-bit ELF file headers.
pub trait Header {
    /// This header with its address-sized fields widened to 64 bits.
    spec fn wide(&self) -> HeaderRepr<u64>;

    /// The file identifier.
    fn ident(&self) -> (r: Ident)
        ensures
            r == self.wide().ident,
    ;

    /// The object file type.
    fn get_type(&self) -> (r: Type)
        ensures
            r == type_of(self.wide().elftype.0),
    ;

    /// The target machine.
    fn machine(&self) -> (r: Machine)
        ensures
            r == self.wide().machine,
    ;

    /// Offset of the program entry point.
    fn entry_point(&self) -> (r: usize)
        ensures
            r == self.wide().entry_point as usize,
    ;

    /// Offset of the start of the program headers.
    fn ph_offset(&self) -> (r: usize)
        ensures
            r == self.wide().ph_offset as usize,
    ;

    /// Offset of the start of the section headers.
    fn sh_offset(&self) -> (r: usize)
        ensures
            r == self.wide().sh_offset as usize,
    ;

    /// Processor-specific flags.
    fn flags(&self) -> (r: u32)
        ensures
            r == self.wide().flags,
    ;

    /// Index of the section name string table.
    fn sh_str_idx(&self) -> (r: usize)
        ensures
            r == self.wide().sh_str_idx as usize,
    ;
}

impl Header for HeaderRepr<u64> {
    open spec fn wide(&self) -> HeaderRepr<u64> {
        *self
    }

    fn ident(&self) -> (r: Ident) {
        self.ident
    }

    fn get_type(&self) -> (r: Type) {
        self.elftype.as_type()
    }

    fn machine(&self) -> (r: Machine) {
        self.machine
    }

    fn entry_point(&self) -> (r: usize) {
        self.entry_point as usize
    }

    fn ph_offset(&self) -> (r: usize) {
        self.ph_offset as usize
    }

    fn sh_offset(&self) -> (r: usize) {
        self.sh_offset as usize
    }

    fn flags(&self) -> (r: u32) {
        self.flags
    }

    fn sh_str_idx(&self) -> (r: usize) {
        self.sh_str_idx as usize
    }
}

impl Header for HeaderRepr<u32> {
    open spec fn wide(&self) -> HeaderRepr<u64> {
        HeaderRepr {
            ident: self.ident,
            elftype: self.elftype,
            machine: self.machine,
            version: self.version,
            entry_point: self.entry_point as u64,
            ph_offset: self.ph_offset as u64,
            sh_offset: self.sh_offset as u64,
            flags: self.flags,
            header_size: self.header_size,
            ph_entry_size: self.ph_entry_size,
            ph_count: self.ph_count,
            sh_entry_size: self.sh_entry_size,
            sh_count: self.sh_count,
            sh_str_idx: self.sh_str_idx,
        }
    }

    fn ident(&self) -> (r: Ident) {
        self.ident
    }

    fn get_type(&self) -> (r: Type) {
        self.elftype.as_type()
    }

    fn machine(&self) -> (r: Machine) {
        self.machine
    }

    fn entry_point(&self) -> (r: usize) {
        self.entry_point as usize
    }

    fn ph_offset(&self) -> (r: usize) {
        self.ph_offset as usize
    }

    fn sh_offset(&self) -> (r: usize) {
        self.sh_offset as usize
    }

    fn flags(&self) -> (r: u32) {
        self.flags
    }

    fn sh_str_idx(&self) -> (r: usize) {
        self.sh_str_idx as usize
    }
}

} // verus!
