use sos::exceptions::{
    exception_info, Diagnosis, ExceptionClass, InterruptContext, PageFaultError, Registers,
};
use sos::idt::Idt;

fn context(int_id: u64, err_no: u64) -> InterruptContext {
    let registers = Registers {
        rsi: 0,
        rdi: 0,
        r11: 0,
        r10: 0,
        r9: 0,
        r8: 0,
        rdx: 0,
        rcx: 0,
        rax: 0,
    };
    InterruptContext { registers, int_id, err_no }
}

#[test]
fn every_exception_vector_is_described() {
    for v in 0..32u64 {
        let info = exception_info(v).expect("exception vectors are all described");
        assert!(!info.mnemonic.is_empty());
        assert!(!info.name.is_empty());
    }
    assert!(exception_info(32).is_none());
    assert!(exception_info(255).is_none());
}

#[test]
fn known_exception_descriptions() {
    let pf = exception_info(14).unwrap();
    assert_eq!(pf.mnemonic, "#PF");
    assert_eq!(pf.name, "Page Fault");
    assert_eq!(pf.class, ExceptionClass::Fault);
    assert!(pf.has_error_code);
    let df = exception_info(8).unwrap();
    assert_eq!(df.mnemonic, "#DF");
    assert_eq!(df.class, ExceptionClass::Abort);
    assert_eq!(exception_info(3).unwrap().class, ExceptionClass::Trap);
    assert_eq!(exception_info(0).unwrap().name, "Divide-by-zero Error");
}

#[test]
fn page_fault_error_bits_decode_one_by_one() {
    let p = PageFaultError::from_error_code(0b001);
    assert!(p.present && !p.write && !p.user && !p.reserved && !p.instruction_fetch);
    let w = PageFaultError::from_error_code(0b010);
    assert!(!w.present && w.write && !w.user && !w.reserved && !w.instruction_fetch);
    let u = PageFaultError::from_error_code(0b100);
    assert!(!u.present && !u.write && u.user && !u.reserved && !u.instruction_fetch);
    let f = PageFaultError::from_error_code(0b11000);
    assert!(!f.present && f.reserved && f.instruction_fetch);
}

#[test]
fn page_faults_are_decoded_and_others_are_fatal() {
    match Idt::handle_cpu_exception(&context(14, 0b110)) {
        Diagnosis::PageFault { info, error } => {
            assert_eq!(info.mnemonic, "#PF");
            assert!(!error.present && error.write && error.user);
        }
        _ => panic!("vector 14 is a page fault"),
    }
    match Idt::handle_cpu_exception(&context(13, 0x18)) {
        Diagnosis::Fatal { info, vector, error_code } => {
            assert_eq!(info.mnemonic, "#GP");
            assert_eq!(vector, 13);
            assert_eq!(error_code, 0x18);
        }
        _ => panic!("vector 13 is fatal"),
    }
    assert_eq!(
        Idt::handle_cpu_exception(&context(40, 0)),
        Diagnosis::NotAnException { vector: 40 }
    );
}

#[test]
fn every_other_exception_vector_is_fatal() {
    for v in 0..32u64 {
        let d = Idt::handle_cpu_exception(&context(v, 7));
        if v == 14 {
            assert!(matches!(d, Diagnosis::PageFault { .. }));
        } else {
            assert!(matches!(d, Diagnosis::Fatal { vector, error_code: 7, .. } if vector == v));
        }
    }
}

#[test]
fn context_exception_lookup() {
    assert_eq!(context(6, 0).exception().unwrap().mnemonic, "#UD");
    assert!(context(32, 0).exception().is_none());
}
