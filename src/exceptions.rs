//! Decoding of CPU exceptions: what each of the 32 reserved vectors means,
//! what a page fault's error code says, and what the kernel does about it.
use vstd::prelude::*;

verus! {

/// Number of vectors the CPU reserves for its own exceptions.
pub const EXCEPTION_VECTORS: u64 = 32;

/// Vector of the page fault.
pub const PAGE_FAULT_VECTOR: u64 = 14;

/// How an exception is reported, as the CPU specification classes it.
#[derive(Clone, Copy, Debug, PartialEq, Eq, Structural)]
pub enum ExceptionClass {
    /// Reported before the faulting instruction; it may be restarted.
    Fault,
    /// Reported after the trapping instruction.
    Trap,
    /// Severe; the program cannot be restarted.
    Abort,
    /// An external interrupt routed to an exception vector.
    Interrupt,
    /// A vector the CPU specification keeps for future use.
    Reserved,
}

/// What the CPU specification says of one exception vector.
#[derive(Clone, Copy, Debug, PartialEq, Eq)]
pub struct ExceptionInfo {
    /// Short mnemonic, such as `#PF`.
    pub mnemonic: &'static str,
    /// Full name, such as `Page Fault`.
    pub name: &'static str,
    pub class: ExceptionClass,
    /// Whether the CPU pushes an error code for this vector.
    pub has_error_code: bool,
}

/// The description of exception vector `v`, for `v < 32`.
pub open spec fn exception_table(v: u64) -> ExceptionInfo {
    match v {
        0 => ExceptionInfo {
            mnemonic: "#DE",
            name: "Divide-by-zero Error",
            class: ExceptionClass::Fault,
            has_error_code: false,
        },
        1 => ExceptionInfo {
            mnemonic: "#DB",
            name: "Debug",
            class: ExceptionClass::Trap,
            has_error_code: false,
        },
        2 => ExceptionInfo {
            mnemonic: "NMI",
            name: "Non-maskable Interrupt",
            class: ExceptionClass::Interrupt,
            has_error_code: false,
        },
        3 => ExceptionInfo {
            mnemonic: "#BP",
            name: "Breakpoint",
            class: ExceptionClass::Trap,
            has_error_code: false,
        },
        4 => ExceptionInfo {
            mnemonic: "#OF",
            name: "Overflow",
            class: ExceptionClass::Trap,
            has_error_code: false,
        },
        5 => ExceptionInfo {
            mnemonic: "#BR",
            name: "Bound Range Exceeded",
            class: ExceptionClass::Fault,
            has_error_code: false,
        },
        6 => ExceptionInfo {
            mnemonic: "#UD",
            name: "Invalid Opcode",
            class: ExceptionClass::Fault,
            has_error_code: false,
        },
        7 => ExceptionInfo {
            mnemonic: "#NM",
            name: "Device Not Available",
            class: ExceptionClass::Fault,
            has_error_code: false,
        },
        8 => ExceptionInfo {
            mnemonic: "#DF",
            name: "Double Fault",
            class: ExceptionClass::Abort,
            has_error_code: true,
        },
        9 => ExceptionInfo {
            mnemonic: "#CSO",
            name: "Coprocessor Segment Overrun",
            class: ExceptionClass::Fault,
            has_error_code: false,
        },
        10 => ExceptionInfo {
            mnemonic: "#TS",
            name: "Invalid TSS",
            class: ExceptionClass::Fault,
            has_error_code: true,
        },
        11 => ExceptionInfo {
            mnemonic: "#NP",
            name: "Segment Not Present",
            class: ExceptionClass::Fault,
            has_error_code: true,
        },
        12 => ExceptionInfo {
            mnemonic: "#SS",
            name: "Stack-Segment Fault",
            class: ExceptionClass::Fault,
            has_error_code: true,
        },
        13 => ExceptionInfo {
            mnemonic: "#GP",
            name: "General Protection Fault",
            class: ExceptionClass::Fault,
            has_error_code: true,
        },
        14 => ExceptionInfo {
            mnemonic: "#PF",
            name: "Page Fault",
            class: ExceptionClass::Fault,
            has_error_code: true,
        },
        15 => ExceptionInfo {
            mnemonic: "-",
            name: "Reserved",
            class: ExceptionClass::Reserved,
            has_error_code: false,
        },
        16 => ExceptionInfo {
            mnemonic: "#MF",
            name: "x87 Floating-Point Exception",
            class: ExceptionClass::Fault,
            has_error_code: false,
        },
        17 => ExceptionInfo {
            mnemonic: "#AC",
            name: "Alignment Check",
            class: ExceptionClass::Fault,
            has_error_code: true,
        },
        18 => ExceptionInfo {
            mnemonic: "#MC",
            name: "Machine Check",
            class: ExceptionClass::Abort,
            has_error_code: false,
        },
        19 => ExceptionInfo {
            mnemonic: "#XM",
            name: "SIMD Floating-Point Exception",
            class: ExceptionClass::Fault,
            has_error_code: false,
        },
        20 => ExceptionInfo {
            mnemonic: "#VE",
            name: "Virtualization Exception",
            class: ExceptionClass::Fault,
            has_error_code: false,
        },
        21 => ExceptionInfo {
            mnemonic: "#CP",
            name: "Control Protection Exception",
            class: ExceptionClass::Fault,
            has_error_code: true,
        },
        22 => ExceptionInfo {
            mnemonic: "-",
            name: "Reserved",
            class: ExceptionClass::Reserved,
            has_error_code: false,
        },
        23 => ExceptionInfo {
            mnemonic: "-",
            name: "Reserved",
            class: ExceptionClass::Reserved,
            has_error_code: false,
        },
        24 => ExceptionInfo {
            mnemonic: "-",
            name: "Reserved",
            class: ExceptionClass::Reserved,
            has_error_code: false,
        },
        25 => ExceptionInfo {
            mnemonic: "-",
            name: "Reserved",
            class: ExceptionClass::Reserved,
            has_error_code: false,
        },
        26 => ExceptionInfo {
            mnemonic: "-",
            name: "Reserved",
            class: ExceptionClass::Reserved,
            has_error_code: false,
        },
        27 => ExceptionInfo {
            mnemonic: "-",
            name: "Reserved",
            class: ExceptionClass::Reserved,
            has_error_code: false,
        },
        28 => ExceptionInfo {
            mnemonic: "#HV",
            name: "Hypervisor Injection Exception",
            class: ExceptionClass::Fault,
            has_error_code: false,
        },
        29 => ExceptionInfo {
            mnemonic: "#VC",
            name: "VMM Communication Exception",
            class: ExceptionClass::Fault,
            has_error_code: true,
        },
        30 => ExceptionInfo {
            mnemonic: "#SX",
            name: "Security Exception",
            class: ExceptionClass::Fault,
            has_error_code: true,
        },
        _ => ExceptionInfo {
            mnemonic: "-",
            name: "Reserved",
            class: ExceptionClass::Reserved,
            has_error_code: false,
        },
    }
}

/// Every exception vector has a description: its mnemonic and its name are
/// both non-empty.
pub proof fn lemma_exception_described(v: u64)
    requires
        v < EXCEPTION_VECTORS,
    ensures
        exception_table(v).mnemonic@.len() > 0,
        exception_table(v).name@.len() > 0,
{
    reveal_strlit("#AC");
    reveal_strlit("#BP");
    reveal_strlit("#BR");
    reveal_strlit("#CP");
    reveal_strlit("#CSO");
    reveal_strlit("#DB");
    reveal_strlit("#DE");
    reveal_strlit("#DF");
    reveal_strlit("#GP");
    reveal_strlit("#HV");
    reveal_strlit("#MC");
    reveal_strlit("#MF");
    reveal_strlit("#NM");
    reveal_strlit("#NP");
    reveal_strlit("#OF");
    reveal_strlit("#PF");
    reveal_strlit("#SS");
    reveal_strlit("#SX");
    reveal_strlit("#TS");
    reveal_strlit("#UD");
    reveal_strlit("#VC");
    reveal_strlit("#VE");
    reveal_strlit("#XM");
    reveal_strlit("-");
    reveal_strlit("Alignment Check");
    reveal_strlit("Bound Range Exceeded");
    reveal_strlit("Breakpoint");
    reveal_strlit("Control Protection Exception");
    reveal_strlit("Coprocessor Segment Overrun");
    reveal_strlit("Debug");
    reveal_strlit("Device Not Available");
    reveal_strlit("Divide-by-zero Error");
    reveal_strlit("Double Fault");
    reveal_strlit("General Protection Fault");
    reveal_strlit("Hypervisor Injection Exception");
    reveal_strlit("Invalid Opcode");
    reveal_strlit("Invalid TSS");
    reveal_strlit("Machine Check");
    reveal_strlit("NMI");
    reveal_strlit("Non-maskable Interrupt");
    reveal_strlit("Overflow");
    reveal_strlit("Page Fault");
    reveal_strlit("Reserved");
    reveal_strlit("SIMD Floating-Point Exception");
    reveal_strlit("Security Exception");
    reveal_strlit("Segment Not Present");
    reveal_strlit("Stack-Segment Fault");
    reveal_strlit("VMM Communication Exception");
    reveal_strlit("Virtualization Exception");
    reveal_strlit("x87 Floating-Point Exception");
}

/// The description of exception vector `vector`, or `None` where
/// `vector` is not one of the 32 exception vectors.
pub fn exception_info(vector: u64) -> (r: Option<ExceptionInfo>)
    ensures
        vector < EXCEPTION_VECTORS ==> r == Some(exception_table(vector)),
        vector >= EXCEPTION_VECTORS ==> r.is_none(),
{
    if vector >= EXCEPTION_VECTORS {
        return None;
    }
    let info = match vector {
        0 => ExceptionInfo {
            mnemonic: "#DE",
            name: "Divide-by-zero Error",
            class: ExceptionClass::Fault,
            has_error_code: false,
        },
        1 => ExceptionInfo {
            mnemonic: "#DB",
            name: "Debug",
            class: ExceptionClass::Trap,
            has_error_code: false,
        },
        2 => ExceptionInfo {
            mnemonic: "NMI",
            name: "Non-maskable Interrupt",
            class: ExceptionClass::Interrupt,
            has_error_code: false,
        },
        3 => ExceptionInfo {
            mnemonic: "#BP",
            name: "Breakpoint",
            class: ExceptionClass::Trap,
            has_error_code: false,
        },
        4 => ExceptionInfo {
            mnemonic: "#OF",
            name: "Overflow",
            class: ExceptionClass::Trap,
            has_error_code: false,
        },
        5 => ExceptionInfo {
            mnemonic: "#BR",
            name: "Bound Range Exceeded",
            class: ExceptionClass::Fault,
            has_error_code: false,
        },
        6 => ExceptionInfo {
            mnemonic: "#UD",
            name: "Invalid Opcode",
            class: ExceptionClass::Fault,
            has_error_code: false,
        },
        7 => ExceptionInfo {
            mnemonic: "#NM",
            name: "Device Not Available",
            class: ExceptionClass::Fault,
            has_error_code: false,
        },
        8 => ExceptionInfo {
            mnemonic: "#DF",
            name: "Double Fault",
            class: ExceptionClass::Abort,
            has_error_code: true,
        },
        9 => ExceptionInfo {
            mnemonic: "#CSO",
            name: "Coprocessor Segment Overrun",
            class: ExceptionClass::Fault,
            has_error_code: false,
        },
        10 => ExceptionInfo {
            mnemonic: "#TS",
            name: "Invalid TSS",
            class: ExceptionClass::Fault,
            has_error_code: true,
        },
        11 => ExceptionInfo {
            mnemonic: "#NP",
            name: "Segment Not Present",
            class: ExceptionClass::Fault,
            has_error_code: true,
        },
        12 => ExceptionInfo {
            mnemonic: "#SS",
            name: "Stack-Segment Fault",
            class: ExceptionClass::Fault,
            has_error_code: true,
        },
        13 => ExceptionInfo {
            mnemonic: "#GP",
            name: "General Protection Fault",
            class: ExceptionClass::Fault,
            has_error_code: true,
        },
        14 => ExceptionInfo {
            mnemonic: "#PF",
            name: "Page Fault",
            class: ExceptionClass::Fault,
            has_error_code: true,
        },
        15 => ExceptionInfo {
            mnemonic: "-",
            name: "Reserved",
            class: ExceptionClass::Reserved,
            has_error_code: false,
        },
        16 => ExceptionInfo {
            mnemonic: "#MF",
            name: "x87 Floating-Point Exception",
            class: ExceptionClass::Fault,
            has_error_code: false,
        },
        17 => ExceptionInfo {
            mnemonic: "#AC",
            name: "Alignment Check",
            class: ExceptionClass::Fault,
            has_error_code: true,
        },
        18 => ExceptionInfo {
            mnemonic: "#MC",
            name: "Machine Check",
            class: ExceptionClass::Abort,
            has_error_code: false,
        },
        19 => ExceptionInfo {
            mnemonic: "#XM",
            name: "SIMD Floating-Point Exception",
            class: ExceptionClass::Fault,
            has_error_code: false,
        },
        20 => ExceptionInfo {
            mnemonic: "#VE",
            name: "Virtualization Exception",
            class: ExceptionClass::Fault,
            has_error_code: false,
        },
        21 => ExceptionInfo {
            mnemonic: "#CP",
            name: "Control Protection Exception",
            class: ExceptionClass::Fault,
            has_error_code: true,
        },
        22 => ExceptionInfo {
            mnemonic: "-",
            name: "Reserved",
            class: ExceptionClass::Reserved,
            has_error_code: false,
        },
        23 => ExceptionInfo {
            mnemonic: "-",
            name: "Reserved",
            class: ExceptionClass::Reserved,
            has_error_code: false,
        },
        24 => ExceptionInfo {
            mnemonic: "-",
            name: "Reserved",
            class: ExceptionClass::Reserved,
            has_error_code: false,
        },
        25 => ExceptionInfo {
            mnemonic: "-",
            name: "Reserved",
            class: ExceptionClass::Reserved,
            has_error_code: false,
        },
        26 => ExceptionInfo {
            mnemonic: "-",
            name: "Reserved",
            class: ExceptionClass::Reserved,
            has_error_code: false,
        },
        27 => ExceptionInfo {
            mnemonic: "-",
            name: "Reserved",
            class: ExceptionClass::Reserved,
            has_error_code: false,
        },
        28 => ExceptionInfo {
            mnemonic: "#HV",
            name: "Hypervisor Injection Exception",
            class: ExceptionClass::Fault,
            has_error_code: false,
        },
        29 => ExceptionInfo {
            mnemonic: "#VC",
            name: "VMM Communication Exception",
            class: ExceptionClass::Fault,
            has_error_code: true,
        },
        30 => ExceptionInfo {
            mnemonic: "#SX",
            name: "Security Exception",
            class: ExceptionClass::Fault,
            has_error_code: true,
        },
        _ => ExceptionInfo {
            mnemonic: "-",
            name: "Reserved",
            class: ExceptionClass::Reserved,
            has_error_code: false,
        },
    };
    Some(info)
}

/// Page-fault error code bit: the fault was a protection violation on a
/// present page (clear: the page was not present).
pub const PF_PRESENT: u64 = 0x1;
/// Page-fault error code bit: the access was a write.
pub const PF_WRITE: u64 = 0x2;
/// Page-fault error code bit: the access came from ring 3.
pub const PF_USER: u64 = 0x4;
/// Page-fault error code bit: a reserved bit was set in a table entry.
pub const PF_RESERVED: u64 = 0x8;
/// Page-fault error code bit: the access was an instruction fetch.
pub const PF_INSTRUCTION_FETCH: u64 = 0x10;

/// A page fault's error code, field by field.
#[derive(Clone, Copy, Debug, PartialEq, Eq, Structural)]
pub struct PageFaultError {
    pub present: bool,
    pub write: bool,
    pub user: bool,
    pub reserved: bool,
    pub instruction_fetch: bool,
}

impl PageFaultError {
    /// Decodes the five defined bits of a page fault's error code.
    pub fn from_error_code(code: u64) -> (r: PageFaultError)
        ensures
            r.present == (code & PF_PRESENT != 0),
            r.write == (code & PF_WRITE != 0),
            r.user == (code & PF_USER != 0),
            r.reserved == (code & PF_RESERVED != 0),
            r.instruction_fetch == (code & PF_INSTRUCTION_FETCH != 0),
    {
        PageFaultError {
            present: code & PF_PRESENT != 0,
            write: code & PF_WRITE != 0,
            user: code & PF_USER != 0,
            reserved: code & PF_RESERVED != 0,
            instruction_fetch: code & PF_INSTRUCTION_FETCH != 0,
        }
    }
}

/// The general registers saved by the trap-entry code.
#[derive(Clone, Copy, Debug, PartialEq, Eq, Structural)]
pub struct Registers {
    pub rsi: u64,
    pub rdi: u64,
    pub r11: u64,
    pub r10: u64,
    pub r9: u64,
    pub r8: u64,
    pub rdx: u64,
    pub rcx: u64,
    pub rax: u64,
}

/// The state captured by the trap-entry code when a vector fires.
#[derive(Clone, Copy, Debug, PartialEq, Eq, Structural)]
pub struct InterruptContext {
    pub registers: Registers,
    /// The vector that fired.
    pub int_id: u64,
    /// The error code the CPU pushed, or zero.
    pub err_no: u64,
}

impl InterruptContext {
    /// What the CPU specification says of the vector that fired, if it is
    /// an exception vector.
    pub fn exception(&self) -> (r: Option<ExceptionInfo>)
        ensures
            self.int_id < EXCEPTION_VECTORS ==> r == Some(exception_table(self.int_id)),
            self.int_id >= EXCEPTION_VECTORS ==> r.is_none(),
    {
        exception_info(self.int_id)
    }
}

/// What the kernel makes of a captured exception.
#[derive(Clone, Copy, Debug, PartialEq, Eq)]
pub enum Diagnosis {
    /// A page fault, with its decoded error code; recovery belongs to the
    /// memory manager.
    PageFault { info: ExceptionInfo, error: PageFaultError },
    /// Any other exception: render the diagnostic and halt.
    Fatal { info: ExceptionInfo, vector: u64, error_code: u64 },
    /// The vector is not an exception vector.
    NotAnException { vector: u64 },
}

/// The diagnosis owed for a captured context: a page fault on vector 14, a
/// fatal exception on the other 31 exception vectors, and no exception
/// beyond them.
pub open spec fn diagnosis_of(state: InterruptContext) -> Diagnosis {
    if state.int_id >= EXCEPTION_VECTORS {
        Diagnosis::NotAnException { vector: state.int_id }
    } else if state.int_id == PAGE_FAULT_VECTOR {
        Diagnosis::PageFault {
            info: exception_table(state.int_id),
            error: PageFaultError {
                present: state.err_no & PF_PRESENT != 0,
                write: state.err_no & PF_WRITE != 0,
                user: state.err_no & PF_USER != 0,
                reserved: state.err_no & PF_RESERVED != 0,
                instruction_fetch: state.err_no & PF_INSTRUCTION_FETCH != 0,
            },
        }
    } else {
        Diagnosis::Fatal {
            info: exception_table(state.int_id),
            vector: state.int_id,
            error_code: state.err_no,
        }
    }
}

} // verus!
