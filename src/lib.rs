//! CPU bring-up structures for an x86_64 kernel: physical addresses and
//! frames, the boot page-table hierarchy, descriptor tables and the
//! interrupt descriptor table, CPU exception decoding, and the ELF file
//! header.
pub mod addr;
pub mod dtable;
pub mod elf;
pub mod exceptions;
pub mod gdt;
pub mod idt;
pub mod paging;
