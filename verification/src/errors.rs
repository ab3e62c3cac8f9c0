//! Error kinds for a single delivery run.
//!
//! Malformed configuration lines are skipped during parsing rather than
//! reported, so no variant exists for them.

use vstd::prelude::*;
use vstd::string::StringExecFns;

verus! {

/// Everything that can go wrong while routing and delivering one file.
#[derive(Clone, Copy, Debug)]
pub enum PrintError {
    /// The rule file could not be read at all.
    ConfigUnreadable,
    /// No rule pattern matched the input path; reported, not fatal.
    NoRuleMatched,
    /// Opening the printer device by name failed with the given OS code.
    PrinterOpenError { code: u32 },
    /// One of the begin/write/end spool steps failed with the given OS code.
    SpoolProtocolError { code: u32 },
    /// The external converter executable is absent from its expected place.
    ToolNotFound,
    /// The external converter ran but did not exit successfully; the exit
    /// code is carried when the OS reported one.
    ConversionFailed { exit_code: Option<i32> },
    /// Creating, inspecting or removing the lock artifact failed.
    LockIoError,
}

impl PrintError {
    /// A short fixed phrase naming the error kind; numeric codes travel in
    /// the variant fields.
    pub fn describe(&self) -> (r: String)
        ensures
            r@ == self.describe_spec(),
    {
        match self {
            PrintError::ConfigUnreadable => String::from_str("configuration file unreadable"),
            PrintError::NoRuleMatched => String::from_str("no printer rule matched"),
            PrintError::PrinterOpenError { .. } => String::from_str("failed to open printer"),
            PrintError::SpoolProtocolError { .. } => String::from_str("print spool step failed"),
            PrintError::ToolNotFound => String::from_str("converter tool not found"),
            PrintError::ConversionFailed { .. } => String::from_str("converter tool failed"),
            PrintError::LockIoError => String::from_str("lock file operation failed"),
        }
    }

    /// The phrase `describe` returns for each variant.
    pub open spec fn describe_spec(&self) -> Seq<char> {
        match self {
            PrintError::ConfigUnreadable => "configuration file unreadable"@,
            PrintError::NoRuleMatched => "no printer rule matched"@,
            PrintError::PrinterOpenError { .. } => "failed to open printer"@,
            PrintError::SpoolProtocolError { .. } => "print spool step failed"@,
            PrintError::ToolNotFound => "converter tool not found"@,
            PrintError::ConversionFailed { .. } => "converter tool failed"@,
            PrintError::LockIoError => "lock file operation failed"@,
        }
    }
}

} // verus!
