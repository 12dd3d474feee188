//! Emulator error kinds with their category, recoverability, message and suggested user
//! action, and a builder that adds context to an error.

use vstd::prelude::*;
use vstd::string::StringExecFns;
use crate::text::{append_hex, hex_str};

verus! {

/// Error categories, for logging and metrics.
#[derive(Debug, Clone, Copy, PartialEq, Eq, Structural)]
pub enum ErrorCategory {
    General,
    Memory,
    Cpu,
    Gpu,
    Audio,
    Input,
    Disc,
    Network,
    Configuration,
    Fatal,
}

/// An emulator error: what it is about, whether emulation can go on, what the user is
/// told and what they might do.
pub trait EmulatorError {
    spec fn category_spec(&self) -> ErrorCategory;

    spec fn recoverable_spec(&self) -> bool;

    spec fn message_spec(&self) -> Seq<char>;

    spec fn action_spec(&self) -> Option<Seq<char>>;

    /// The error's category.
    fn category(&self) -> (r: ErrorCategory)
        ensures
            r == self.category_spec(),
    ;

    /// Whether emulation can continue after the error.
    fn is_recoverable(&self) -> (r: bool)
        ensures
            r == self.recoverable_spec(),
    ;

    /// The message shown for the error.
    fn message(&self) -> (r: String)
        ensures
            r@ == self.message_spec(),
    ;

    /// What the user might do about it, if anything.
    fn user_action(&self) -> (r: Option<&'static str>)
        ensures
            match r {
                Some(s) => self.action_spec() == Some(s@),
                None => self.action_spec().is_none(),
            },
    ;
}

/// Kinds of memory error.
#[derive(Debug, Clone, Copy, PartialEq, Eq, Structural)]
pub enum MemoryErrorKind {
    InvalidAddress,
    UnalignedAccess,
    ReadOnly,
    OutOfBounds,
    SegmentationFault,
}

impl MemoryErrorKind {
    /// The kind's name.
    pub fn name(&self) -> (r: &'static str)
        ensures
            r@ == memory_kind_name(*self),
    {
        proof {
            reveal_strlit("InvalidAddress");
            reveal_strlit("UnalignedAccess");
            reveal_strlit("ReadOnly");
            reveal_strlit("OutOfBounds");
            reveal_strlit("SegmentationFault");
        }
        match self {
            MemoryErrorKind::InvalidAddress => "InvalidAddress",
            MemoryErrorKind::UnalignedAccess => "UnalignedAccess",
            MemoryErrorKind::ReadOnly => "ReadOnly",
            MemoryErrorKind::OutOfBounds => "OutOfBounds",
            MemoryErrorKind::SegmentationFault => "SegmentationFault",
        }
    }
}

/// The name of a memory error kind.
pub open spec fn memory_kind_name(k: MemoryErrorKind) -> Seq<char> {
    match k {
        MemoryErrorKind::InvalidAddress => "InvalidAddress"@,
        MemoryErrorKind::UnalignedAccess => "UnalignedAccess"@,
        MemoryErrorKind::ReadOnly => "ReadOnly"@,
        MemoryErrorKind::OutOfBounds => "OutOfBounds"@,
        MemoryErrorKind::SegmentationFault => "SegmentationFault"@,
    }
}

/// A memory access error.
#[derive(Debug, Clone, Copy, PartialEq, Eq, Structural)]
pub struct MemoryError {
    pub address: u32,
    pub kind: MemoryErrorKind,
}

impl EmulatorError for MemoryError {
    open spec fn category_spec(&self) -> ErrorCategory {
        ErrorCategory::Memory
    }

    open spec fn recoverable_spec(&self) -> bool {
        self.kind != MemoryErrorKind::SegmentationFault
    }

    open spec fn message_spec(&self) -> Seq<char> {
        "Memory error at "@ + hex_str(self.address) + ": "@ + memory_kind_name(self.kind)
    }

    open spec fn action_spec(&self) -> Option<Seq<char>> {
        None
    }

    fn category(&self) -> (r: ErrorCategory) {
        ErrorCategory::Memory
    }

    fn is_recoverable(&self) -> (r: bool) {
        self.kind != MemoryErrorKind::SegmentationFault
    }

    fn message(&self) -> (r: String) {
        let mut s = String::from_str("Memory error at ");
        append_hex(&mut s, self.address);
        s.append(": ");
        s.append(self.kind.name());
        s
    }

    fn user_action(&self) -> (r: Option<&'static str>) {
        None
    }
}

/// Kinds of CPU error.
#[derive(Debug, Clone, Copy, PartialEq, Eq, Structural)]
pub enum CpuErrorKind {
    InvalidInstruction,
    UnalignedJump,
    PrivilegeViolation,
    CoprocessorUnavailable,
    ArithmeticOverflow,
    DivisionByZero,
}

/// The name of a CPU error kind.
pub open spec fn cpu_kind_name(k: CpuErrorKind) -> Seq<char> {
    match k {
        CpuErrorKind::InvalidInstruction => "InvalidInstruction"@,
        CpuErrorKind::UnalignedJump => "UnalignedJump"@,
        CpuErrorKind::PrivilegeViolation => "PrivilegeViolation"@,
        CpuErrorKind::CoprocessorUnavailable => "CoprocessorUnavailable"@,
        CpuErrorKind::ArithmeticOverflow => "ArithmeticOverflow"@,
        CpuErrorKind::DivisionByZero => "DivisionByZero"@,
    }
}

impl CpuErrorKind {
    /// The kind's name.
    pub fn name(&self) -> (r: &'static str)
        ensures
            r@ == cpu_kind_name(*self),
    {
        match self {
            CpuErrorKind::InvalidInstruction => "InvalidInstruction",
            CpuErrorKind::UnalignedJump => "UnalignedJump",
            CpuErrorKind::PrivilegeViolation => "PrivilegeViolation",
            CpuErrorKind::CoprocessorUnavailable => "CoprocessorUnavailable",
            CpuErrorKind::ArithmeticOverflow => "ArithmeticOverflow",
            CpuErrorKind::DivisionByZero => "DivisionByZero",
        }
    }
}

/// A CPU execution error.
#[derive(Debug, Clone, Copy, PartialEq, Eq, Structural)]
pub struct CpuError {
    pub pc: u32,
    pub instruction: u32,
    pub kind: CpuErrorKind,
}

impl EmulatorError for CpuError {
    open spec fn category_spec(&self) -> ErrorCategory {
        ErrorCategory::Cpu
    }

    open spec fn recoverable_spec(&self) -> bool {
        self.kind != CpuErrorKind::PrivilegeViolation
    }

    open spec fn message_spec(&self) -> Seq<char> {
        "CPU error at PC "@ + hex_str(self.pc) + " (instruction "@ + hex_str(self.instruction) + "): "@
            + cpu_kind_name(self.kind)
    }

    open spec fn action_spec(&self) -> Option<Seq<char>> {
        None
    }

    fn category(&self) -> (r: ErrorCategory) {
        ErrorCategory::Cpu
    }

    fn is_recoverable(&self) -> (r: bool) {
        self.kind != CpuErrorKind::PrivilegeViolation
    }

    fn message(&self) -> (r: String) {
        let mut s = String::from_str("CPU error at PC ");
        append_hex(&mut s, self.pc);
        s.append(" (instruction ");
        append_hex(&mut s, self.instruction);
        s.append("): ");
        s.append(self.kind.name());
        s
    }

    fn user_action(&self) -> (r: Option<&'static str>) {
        None
    }
}

/// Kinds of GPU error.
#[derive(Debug, Clone, Copy, PartialEq, Eq, Structural)]
pub enum GpuErrorKind {
    InvalidCommand,
    FifoOverflow,
    VramOutOfBounds,
    TextureNotFound,
    InvalidResolution,
}

/// The name of a GPU error kind.
pub open spec fn gpu_kind_name(k: GpuErrorKind) -> Seq<char> {
    match k {
        GpuErrorKind::InvalidCommand => "InvalidCommand"@,
        GpuErrorKind::FifoOverflow => "FifoOverflow"@,
        GpuErrorKind::VramOutOfBounds => "VramOutOfBounds"@,
        GpuErrorKind::TextureNotFound => "TextureNotFound"@,
        GpuErrorKind::InvalidResolution => "InvalidResolution"@,
    }
}

impl GpuErrorKind {
    /// The kind's name.
    pub fn name(&self) -> (r: &'static str)
        ensures
            r@ == gpu_kind_name(*self),
    {
        match self {
            GpuErrorKind::InvalidCommand => "InvalidCommand",
            GpuErrorKind::FifoOverflow => "FifoOverflow",
            GpuErrorKind::VramOutOfBounds => "VramOutOfBounds",
            GpuErrorKind::TextureNotFound => "TextureNotFound",
            GpuErrorKind::InvalidResolution => "InvalidResolution",
        }
    }
}

/// A GPU error.
#[derive(Debug, Clone, Copy, PartialEq, Eq, Structural)]
pub struct GpuError {
    pub command: u32,
    pub kind: GpuErrorKind,
}

impl EmulatorError for GpuError {
    open spec fn category_spec(&self) -> ErrorCategory {
        ErrorCategory::Gpu
    }

    open spec fn recoverable_spec(&self) -> bool {
        true
    }

    open spec fn message_spec(&self) -> Seq<char> {
        "GPU error with command "@ + hex_str(self.command) + ": "@ + gpu_kind_name(self.kind)
    }

    open spec fn action_spec(&self) -> Option<Seq<char>> {
        None
    }

    fn category(&self) -> (r: ErrorCategory) {
        ErrorCategory::Gpu
    }

    fn is_recoverable(&self) -> (r: bool) {
        true
    }

    fn message(&self) -> (r: String) {
        let mut s = String::from_str("GPU error with command ");
        append_hex(&mut s, self.command);
        s.append(": ");
        s.append(self.kind.name());
        s
    }

    fn user_action(&self) -> (r: Option<&'static str>) {
        None
    }
}

/// Kinds of disc error.
#[derive(Debug, Clone, PartialEq, Eq)]
pub enum DiscErrorKind {
    NoDiscInserted,
    InvalidFormat,
    ReadError(String),
    SeekError,
    CrcMismatch,
    UnsupportedFormat(String),
}

/// A disc or CD-ROM error.
#[derive(Debug, Clone, PartialEq, Eq)]
pub struct DiscError {
    pub kind: DiscErrorKind,
}

impl EmulatorError for DiscError {
    open spec fn category_spec(&self) -> ErrorCategory {
        ErrorCategory::Disc
    }

    open spec fn recoverable_spec(&self) -> bool {
        true
    }

    open spec fn message_spec(&self) -> Seq<char> {
        match self.kind {
            DiscErrorKind::NoDiscInserted => "No disc inserted"@,
            DiscErrorKind::InvalidFormat => "Invalid disc format"@,
            DiscErrorKind::ReadError(m) => "Disc read error: "@ + m@,
            DiscErrorKind::SeekError => "Disc seek error"@,
            DiscErrorKind::CrcMismatch => "Disc CRC mismatch"@,
            DiscErrorKind::UnsupportedFormat(f) => "Unsupported disc format: "@ + f@,
        }
    }

    open spec fn action_spec(&self) -> Option<Seq<char>> {
        match self.kind {
            DiscErrorKind::NoDiscInserted => Some("Please load a game disc or executable"@),
            DiscErrorKind::UnsupportedFormat(_) => Some("This disc format is not supported. Try converting to BIN/CUE format"@),
            _ => None,
        }
    }

    fn category(&self) -> (r: ErrorCategory) {
        ErrorCategory::Disc
    }

    fn is_recoverable(&self) -> (r: bool) {
        true
    }

    fn message(&self) -> (r: String) {
        match &self.kind {
            DiscErrorKind::NoDiscInserted => String::from_str("No disc inserted"),
            DiscErrorKind::InvalidFormat => String::from_str("Invalid disc format"),
            DiscErrorKind::ReadError(msg) => {
                let mut s = String::from_str("Disc read error: ");
                s.append(msg.as_str());
                s
            },
            DiscErrorKind::SeekError => String::from_str("Disc seek error"),
            DiscErrorKind::CrcMismatch => String::from_str("Disc CRC mismatch"),
            DiscErrorKind::UnsupportedFormat(f) => {
                let mut s = String::from_str("Unsupported disc format: ");
                s.append(f.as_str());
                s
            },
        }
    }

    fn user_action(&self) -> (r: Option<&'static str>) {
        match self.kind {
            DiscErrorKind::NoDiscInserted => Some("Please load a game disc or executable"),
            DiscErrorKind::UnsupportedFormat(_) => Some("This disc format is not supported. Try converting to BIN/CUE format"),
            _ => None,
        }
    }
}

/// A configuration error.
#[derive(Debug, Clone, PartialEq, Eq)]
pub struct ConfigError {
    pub message: String,
}

impl EmulatorError for ConfigError {
    open spec fn category_spec(&self) -> ErrorCategory {
        ErrorCategory::Configuration
    }

    open spec fn recoverable_spec(&self) -> bool {
        true
    }

    open spec fn message_spec(&self) -> Seq<char> {
        "Configuration error: "@ + self.message@
    }

    open spec fn action_spec(&self) -> Option<Seq<char>> {
        Some("Please check your emulator configuration settings"@)
    }

    fn category(&self) -> (r: ErrorCategory) {
        ErrorCategory::Configuration
    }

    fn is_recoverable(&self) -> (r: bool) {
        true
    }

    fn message(&self) -> (r: String) {
        let mut s = String::from_str("Configuration error: ");
        s.append(self.message.as_str());
        s
    }

    fn user_action(&self) -> (r: Option<&'static str>) {
        Some("Please check your emulator configuration settings")
    }
}

/// Builds an error with added context lines and, optionally, marked unrecoverable.
pub struct ErrorBuilder<E> {
    pub error: E,
    pub context: Vec<String>,
    pub recoverable: bool,
}

/// An error with context: the inner error, the context lines, and a recoverability flag
/// that can only make it less recoverable.
pub struct DetailedError<E> {
    pub inner: E,
    pub context: Vec<String>,
    pub recoverable: bool,
}

/// The context lines of a detailed error as they follow its message.
pub open spec fn context_text(ctx: Seq<String>) -> Seq<char>
    decreases ctx.len(),
{
    if ctx.len() == 0 { Seq::empty() } else { context_text(ctx.drop_last()) + "\n  Context: "@ + ctx.last()@ }
}

impl<E: EmulatorError> ErrorBuilder<E> {
    /// A builder around `error`, with no context and recoverable.
    pub fn new(error: E) -> (r: Self)
        ensures
            r.error == error,
            r.context@.len() == 0,
            r.recoverable,
    {
        ErrorBuilder { error, context: Vec::new(), recoverable: true }
    }

    /// Add a context line.
    pub fn with_context(self, context: &str) -> (r: Self)
        ensures
            r.error == self.error,
            r.recoverable == self.recoverable,
            r.context@.len() == self.context@.len() + 1,
            forall|i: int| 0 <= i < self.context@.len() ==> #[trigger] r.context@[i] == self.context@[i],
            r.context@.last()@ == context@,
    {
        let mut b = self;
        b.context.push(String::from_str(context));
        b
    }

    /// Mark the error unrecoverable.
    pub fn non_recoverable(self) -> (r: Self)
        ensures
            r.error == self.error,
            r.context == self.context,
            !r.recoverable,
    {
        let mut b = self;
        b.recoverable = false;
        b
    }

    /// The finished error.
    pub fn build(self) -> (r: DetailedError<E>)
        ensures
            r.inner == self.error,
            r.context == self.context,
            r.recoverable == self.recoverable,
    {
        DetailedError { inner: self.error, context: self.context, recoverable: self.recoverable }
    }
}

impl<E: EmulatorError> EmulatorError for DetailedError<E> {
    open spec fn category_spec(&self) -> ErrorCategory {
        self.inner.category_spec()
    }

    open spec fn recoverable_spec(&self) -> bool {
        self.recoverable && self.inner.recoverable_spec()
    }

    open spec fn message_spec(&self) -> Seq<char> {
        self.inner.message_spec() + context_text(self.context@)
    }

    open spec fn action_spec(&self) -> Option<Seq<char>> {
        self.inner.action_spec()
    }

    fn category(&self) -> (r: ErrorCategory) {
        self.inner.category()
    }

    fn is_recoverable(&self) -> (r: bool) {
        self.recoverable && self.inner.is_recoverable()
    }

    fn message(&self) -> (r: String) {
        let mut s = self.inner.message();
        let mut i: usize = 0;
        while i < self.context.len()
            invariant
                i <= self.context@.len(),
                s@ == self.inner.message_spec() + context_text(self.context@.subrange(0, i as int)),
            decreases self.context@.len() - i,
        {
            proof { reveal_strlit("\n  Context: "); }
            s.append("\n  Context: ");
            s.append(self.context[i].as_str());
            proof {
                let next = self.context@.subrange(0, i + 1);
                assert(next.drop_last() =~= self.context@.subrange(0, i as int));
            }
            i = i + 1;
        }
        assert(self.context@.subrange(0, self.context@.len() as int) =~= self.context@);
        s
    }

    fn user_action(&self) -> (r: Option<&'static str>) {
        self.inner.user_action()
    }
}

} // verus!
