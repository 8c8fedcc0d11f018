//! Diagnostic Router: translates a driver-reported severity classification
//! and a possibly-absent message into a structured log emission.
//!
//! The native driver invokes a registered callback with a severity bit and
//! a message pointer that may be null. The routing decision — which log
//! level the message is emitted at, and whether the severity is even one
//! the API defines — is made here, on plain values, so it is verified for
//! every severity word the driver could pass.

use vstd::prelude::*;

verus! {

/// Severity bit for verbose driver chatter.
pub const SEVERITY_VERBOSE: u32 = 0x1;
/// Severity bit for informational messages.
pub const SEVERITY_INFO: u32 = 0x10;
/// Severity bit for warnings.
pub const SEVERITY_WARNING: u32 = 0x100;
/// Severity bit for errors.
pub const SEVERITY_ERROR: u32 = 0x1000;

/// Message-category bit: general events.
pub const TYPE_GENERAL: u32 = 0x1;
/// Message-category bit: validation findings.
pub const TYPE_VALIDATION: u32 = 0x2;
/// Message-category bit: performance advice.
pub const TYPE_PERFORMANCE: u32 = 0x4;
/// Message-category bit: device-address-binding reports.
pub const TYPE_DEVICE_ADDRESS_BINDING: u32 = 0x8;

/// The log level a routed diagnostic is emitted at.
#[derive(Clone, Copy, Debug, PartialEq, Eq)]
pub enum LogLevel {
    Trace,
    Info,
    Warn,
    Error,
}

/// What the router decided to do with a diagnostic.
#[derive(Debug, PartialEq, Eq)]
pub enum Routed {
    /// Emit `text` at `level` through the logging sink.
    Emit { level: LogLevel, text: String },
    /// The severity is none of the four the API defines: an
    /// internal-consistency violation that must never be silently
    /// swallowed. The embedding aborts on this.
    Fatal,
}

/// The router's full answer: the action to take, and whether the
/// triggering driver call should be aborted (it never is).
#[derive(Debug, PartialEq, Eq)]
pub struct DiagnosticResponse {
    pub action: Routed,
    pub abort_call: bool,
}

/// The fixed one-to-one severity-to-level mapping: verbose maps to trace,
/// info to info, warning to warn, error to error; anything else is
/// undefined and yields no level.
pub open spec fn level_for(severity: u32) -> Option<LogLevel> {
    if severity == SEVERITY_VERBOSE {
        Some(LogLevel::Trace)
    } else if severity == SEVERITY_INFO {
        Some(LogLevel::Info)
    } else if severity == SEVERITY_WARNING {
        Some(LogLevel::Warn)
    } else if severity == SEVERITY_ERROR {
        Some(LogLevel::Error)
    } else {
        None
    }
}

/// The text a diagnostic carries: an absent message (a null text pointer
/// at the native boundary) reads as the empty string.
pub open spec fn text_of(message: Option<String>) -> Seq<char> {
    match message {
        Some(s) => s@,
        None => Seq::empty(),
    }
}

/// Route one driver diagnostic. `severity` is the severity word the driver
/// passed; `message` is the payload text, absent when the native pointer
/// was null. The category mask is received but does not influence routing,
/// so it is not a parameter here.
pub fn route_diagnostic(severity: u32, message: Option<String>) -> (r: DiagnosticResponse)
    ensures
        !r.abort_call,
        match level_for(severity) {
            Some(lvl) => (r.action matches Routed::Emit { level, text } && level == lvl
                && text@ == text_of(message)),
            None => r.action is Fatal,
        },
{
    let text = match message {
        Some(s) => s,
        None => String::new(),
    };
    let action = if severity == SEVERITY_VERBOSE {
        Routed::Emit { level: LogLevel::Trace, text }
    } else if severity == SEVERITY_INFO {
        Routed::Emit { level: LogLevel::Info, text }
    } else if severity == SEVERITY_WARNING {
        Routed::Emit { level: LogLevel::Warn, text }
    } else if severity == SEVERITY_ERROR {
        Routed::Emit { level: LogLevel::Error, text }
    } else {
        Routed::Fatal
    };
    DiagnosticResponse { action, abort_call: false }
}

} // verus!
