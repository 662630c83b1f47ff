use vstd::prelude::*;
use crate::vulkan::vkbits::{contains, debug_error_severity_bit};

verus! {

/// Represents internal wrapper logging level.
#[derive(Clone, Copy, Debug, PartialEq, Eq, Structural)]
pub enum LoggingLevel {
    /// Console output only
    Console,
    /// No logging
    Off,
}

/// The line that a log message prints at the given level, if any.
pub open spec fn spec_log_line(level: LoggingLevel, message: Seq<char>) -> Option<Seq<char>> {
    match level {
        LoggingLevel::Console => Some("[LOG] "@ + message),
        LoggingLevel::Off => None,
    }
}

/// The line that an error message prints at the given level, if any.
pub open spec fn spec_error_line(level: LoggingLevel, message: Seq<char>) -> Option<Seq<char>> {
    match level {
        LoggingLevel::Console => Some("[ERROR] "@ + message),
        LoggingLevel::Off => None,
    }
}

/// Decides what a log message prints: on the console level the message
/// prefixed by `[LOG] `, on the silent level nothing.
pub fn log_line(level: LoggingLevel, message: &str) -> (r: Option<String>)
    ensures
        r matches Some(s) ==> spec_log_line(level, message@) == Some(s@),
        r is None <==> spec_log_line(level, message@) is None,
{
    match level {
        LoggingLevel::Console => Some(String::from_str("[LOG] ").concat(message)),
        LoggingLevel::Off => None,
    }
}

/// Decides what an error message prints: on the console level the message
/// prefixed by `[ERROR] `, on the silent level nothing.
pub fn error_line(level: LoggingLevel, message: &str) -> (r: Option<String>)
    ensures
        r matches Some(s) ==> spec_error_line(level, message@) == Some(s@),
        r is None <==> spec_error_line(level, message@) is None,
{
    match level {
        LoggingLevel::Console => Some(String::from_str("[ERROR] ").concat(message)),
        LoggingLevel::Off => None,
    }
}

/// Unit in which a byte size is shown in log messages.
#[derive(Clone, Copy, Debug, PartialEq, Eq, Structural)]
pub enum SizeUnit {
    /// Shown with the suffix `GB`
    Gigabytes,
    /// Shown with the suffix `MB`
    Megabytes,
    /// Shown with the suffix `KB`
    Kilobytes,
    /// Shown with the suffix `B`, as a whole number
    Bytes,
}

/// How a byte size is shown: the unit and the power of two the size is
/// divided by before it is printed with two decimals (`B`: printed whole).
pub open spec fn spec_size_display(size: u64) -> (SizeUnit, u64) {
    if size >= 1024 * 1024 * 1024 {
        (SizeUnit::Gigabytes, 1073741824u64)
    } else if size >= 1024 * 1024 {
        (SizeUnit::Megabytes, 1048576u64)
    } else if size >= 1024 {
        (SizeUnit::Kilobytes, 1024u64)
    } else {
        (SizeUnit::Bytes, 1u64)
    }
}

/// Picks the unit and divisor a byte size is shown with in log messages.
pub fn size_display(size: u64) -> (r: (SizeUnit, u64))
    ensures
        r == spec_size_display(size),
        r.1 > 0,
        r.0 == SizeUnit::Bytes ==> size < 1024,
{
    if size >= 1024 * 1024 * 1024 {
        (SizeUnit::Gigabytes, 1024 * 1024 * 1024)
    } else if size >= 1024 * 1024 {
        (SizeUnit::Megabytes, 1024 * 1024)
    } else if size >= 1024 {
        (SizeUnit::Kilobytes, 1024)
    } else {
        (SizeUnit::Bytes, 1)
    }
}

impl SizeUnit {
    /// The suffix printed after a size in this unit.
    pub fn suffix(&self) -> (r: &'static str)
        ensures
            r@ == match self {
                SizeUnit::Gigabytes => "GB"@,
                SizeUnit::Megabytes => "MB"@,
                SizeUnit::Kilobytes => "KB"@,
                SizeUnit::Bytes => "B"@,
            },
    {
        match self {
            SizeUnit::Gigabytes => "GB",
            SizeUnit::Megabytes => "MB",
            SizeUnit::Kilobytes => "KB",
            SizeUnit::Bytes => "B",
        }
    }
}

/// What a message of the driver's validation layers leads to.
#[derive(Clone, Copy, Debug, PartialEq, Eq, Structural)]
pub enum ValidationMessageAction {
    /// The message reports an error: the program stops with it.
    Abort,
    /// The message is logged.
    Log,
    /// The callback received no readable message: that is logged.
    LogMissing,
}

/// Decides what a validation message leads to, given its raw severity bits
/// and whether it carries a readable text: an error aborts, anything else is
/// logged.
pub fn validation_message_action(severity: u32, has_message: bool) -> (r: ValidationMessageAction)
    ensures
        r == (if !has_message {
            ValidationMessageAction::LogMissing
        } else if contains(severity, 0x1000) {
            ValidationMessageAction::Abort
        } else {
            ValidationMessageAction::Log
        }),
{
    if !has_message {
        return ValidationMessageAction::LogMissing;
    }
    let error = debug_error_severity_bit();
    if severity & error == error {
        ValidationMessageAction::Abort
    } else {
        ValidationMessageAction::Log
    }
}

} // verus!
