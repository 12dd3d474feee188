use rustation_ng::error::{ErrorSeverity, PsxError};
use rustation_ng::error_traits::{
    CpuError, CpuErrorKind, EmulatorError, ErrorBuilder, ErrorCategory, MemoryError, MemoryErrorKind,
};

#[test]
fn test_memory_error_creation() {
    let error = MemoryError { address: 0xdeadbeef, kind: MemoryErrorKind::InvalidAddress };

    assert_eq!(error.category(), ErrorCategory::Memory);
    assert!(error.is_recoverable());

    let display = error.message();
    assert!(display.contains("0xdeadbeef"));
}

#[test]
fn test_error_builder() {
    let error = ErrorBuilder::new(CpuError {
        pc: 0x1000,
        instruction: 0x12345678,
        kind: CpuErrorKind::InvalidInstruction,
    })
    .with_context("During game boot")
    .with_context("Instruction fetch phase")
    .non_recoverable()
    .build();

    assert_eq!(error.category(), ErrorCategory::Cpu);
    assert!(!error.is_recoverable());

    let display = error.message();
    assert!(display.contains("0x00001000"));
    assert!(display.contains("During game boot"));
}

#[test]
fn detailed_error_message_lists_context_in_order() {
    let error = ErrorBuilder::new(MemoryError { address: 0x10, kind: MemoryErrorKind::ReadOnly })
        .with_context("first")
        .with_context("second")
        .build();
    assert_eq!(
        error.message(),
        "Memory error at 0x00000010: ReadOnly\n  Context: first\n  Context: second"
    );
    assert!(error.is_recoverable());
}

#[test]
fn psx_error_recoverability_and_severity() {
    let e = PsxError::memory_violation(0x1234);
    assert!(!e.is_recoverable());
    assert_eq!(e.severity(), ErrorSeverity::Critical);
    let e = PsxError::invalid_exe("bad header");
    assert!(!e.is_recoverable());
    assert_eq!(e.severity(), ErrorSeverity::Error);
    let e = PsxError::emulation("cpu", "halted");
    assert!(e.is_recoverable());
    assert_eq!(e.severity(), ErrorSeverity::Error);
    assert!(matches!(PsxError::invalid_bios("x"), PsxError::InvalidBios { details } if details == "x"));
    assert_eq!(ErrorSeverity::Warning.label(), "WARNING");
    assert_eq!(ErrorSeverity::Critical.label(), "CRITICAL");
}
