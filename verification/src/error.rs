//! Error type of the emulator core.

use vstd::prelude::*;
use vstd::string::StringExecFns;

verus! {

/// Result type of the emulator core.
pub type Result<T> = core::result::Result<T, PsxError>;

/// Errors raised by the emulator core.
#[derive(Debug)]
pub enum PsxError {
    InvalidBios { details: String },
    InvalidExe { reason: String },
    InvalidDisc { format_type: String },
    EmulationError { context: String, message: String },
    IoError { operation: String, message: String },
    MemoryAccessViolation { address: u32 },
    InvalidInput { parameter: String, reason: String },
    StateError { operation: String, reason: String },
    ResourceExhaustion { resource: String, limit: String },
    NotImplemented { feature: String },
    ConfigurationError { setting: String, reason: String },
    SaveStateError { operation: String, reason: String },
    ControllerError { port: usize, reason: String },
    AudioError { component: String, reason: String },
    DiscReadError { sector: usize, reason: String },
    NoSerialNumber,
    BadDiscFormat { reason: String },
}

/// Severity of an error, for logging.
#[derive(Debug, Clone, Copy, PartialEq, Eq, Structural)]
pub enum ErrorSeverity {
    Warning,
    Error,
    Critical,
}

/// Whether an error of this kind leaves the emulator in a state it can continue from.
pub open spec fn spec_is_recoverable(e: PsxError) -> bool {
    !(e is MemoryAccessViolation || e is InvalidBios || e is InvalidExe || e is ResourceExhaustion)
}

/// The severity attached to each kind of error.
pub open spec fn spec_severity(e: PsxError) -> ErrorSeverity {
    match e {
        PsxError::MemoryAccessViolation { .. } => ErrorSeverity::Critical,
        PsxError::InvalidBios { .. } => ErrorSeverity::Critical,
        PsxError::InvalidExe { .. } => ErrorSeverity::Error,
        PsxError::ResourceExhaustion { .. } => ErrorSeverity::Critical,
        PsxError::NotImplemented { .. } => ErrorSeverity::Warning,
        _ => ErrorSeverity::Error,
    }
}

impl PsxError {
    /// An invalid BIOS error carrying `details`.
    pub fn invalid_bios(details: &str) -> (r: Self)
        ensures
            r matches PsxError::InvalidBios { details: d } && d@ == details@,
    {
        PsxError::InvalidBios { details: String::from_str(details) }
    }

    /// An invalid EXE error carrying `reason`.
    pub fn invalid_exe(reason: &str) -> (r: Self)
        ensures
            r matches PsxError::InvalidExe { reason: d } && d@ == reason@,
    {
        PsxError::InvalidExe { reason: String::from_str(reason) }
    }

    /// A memory access violation at `address`.
    pub fn memory_violation(address: u32) -> (r: Self)
        ensures
            r == (PsxError::MemoryAccessViolation { address }),
    {
        PsxError::MemoryAccessViolation { address }
    }

    /// An emulation error with its context.
    pub fn emulation(context: &str, message: &str) -> (r: Self)
        ensures
            r matches PsxError::EmulationError { context: c, message: m } && c@ == context@
                && m@ == message@,
    {
        PsxError::EmulationError {
            context: String::from_str(context),
            message: String::from_str(message),
        }
    }

    /// An I/O error with the operation that failed.
    pub fn io(operation: &str, message: &str) -> (r: Self)
        ensures
            r matches PsxError::IoError { operation: o, message: m } && o@ == operation@
                && m@ == message@,
    {
        PsxError::IoError { operation: String::from_str(operation), message: String::from_str(message) }
    }

    /// Whether the emulator can continue after this error.
    pub fn is_recoverable(&self) -> (r: bool)
        ensures
            r == spec_is_recoverable(*self),
    {
        match self {
            PsxError::MemoryAccessViolation { .. } => false,
            PsxError::InvalidBios { .. } => false,
            PsxError::InvalidExe { .. } => false,
            PsxError::ResourceExhaustion { .. } => false,
            _ => true,
        }
    }

    /// The severity level of this error.
    pub fn severity(&self) -> (r: ErrorSeverity)
        ensures
            r == spec_severity(*self),
    {
        match self {
            PsxError::MemoryAccessViolation { .. } => ErrorSeverity::Critical,
            PsxError::InvalidBios { .. } => ErrorSeverity::Critical,
            PsxError::InvalidExe { .. } => ErrorSeverity::Error,
            PsxError::ResourceExhaustion { .. } => ErrorSeverity::Critical,
            PsxError::NotImplemented { .. } => ErrorSeverity::Warning,
            PsxError::SaveStateError { .. } => ErrorSeverity::Error,
            _ => ErrorSeverity::Error,
        }
    }
}

impl ErrorSeverity {
    /// The label printed for this severity.
    pub fn label(&self) -> (r: &'static str)
        ensures
            *self == ErrorSeverity::Warning ==> r@ == "WARNING"@,
            *self == ErrorSeverity::Error ==> r@ == "ERROR"@,
            *self == ErrorSeverity::Critical ==> r@ == "CRITICAL"@,
    {
        match self {
            ErrorSeverity::Warning => "WARNING",
            ErrorSeverity::Error => "ERROR",
            ErrorSeverity::Critical => "CRITICAL",
        }
    }
}

/// Every critical error is unrecoverable.
pub proof fn lemma_critical_is_unrecoverable(e: PsxError)
    ensures
        spec_severity(e) == ErrorSeverity::Critical ==> !spec_is_recoverable(e),
{
}

} // verus!
