//! Sorting the GPU driver's debug messages for the log.
//!
//! The driver tags each message with a type and a severity. The type gives
//! the log line its opening words, the severity its level. The host hands
//! the line to whatever logging facility it has.

use vstd::prelude::*;
use vstd::string::StringExecFns;

verus! {

/// An error of the API.
pub const DEBUG_TYPE_ERROR: u32 = 0x824C;

/// Use of something that the API has deprecated.
pub const DEBUG_TYPE_DEPRECATED_BEHAVIOR: u32 = 0x824D;

/// Use of something that the API leaves undefined.
pub const DEBUG_TYPE_UNDEFINED_BEHAVIOR: u32 = 0x824E;

/// Use of something that other implementations may lack.
pub const DEBUG_TYPE_PORTABILITY: u32 = 0x824F;

/// Use of something slow.
pub const DEBUG_TYPE_PERFORMANCE: u32 = 0x8250;

/// A message of no other type.
pub const DEBUG_TYPE_OTHER: u32 = 0x8251;

/// An annotation of the command stream.
pub const DEBUG_TYPE_MARKER: u32 = 0x8268;

/// The opening of a debug group.
pub const DEBUG_TYPE_PUSH_GROUP: u32 = 0x8269;

/// The closing of a debug group.
pub const DEBUG_TYPE_POP_GROUP: u32 = 0x826A;

/// Errors and dangerous behaviour.
pub const DEBUG_SEVERITY_HIGH: u32 = 0x9146;

/// Warnings of weight.
pub const DEBUG_SEVERITY_MEDIUM: u32 = 0x9147;

/// Warnings of little weight.
pub const DEBUG_SEVERITY_LOW: u32 = 0x9148;

/// Anything that is no warning.
pub const DEBUG_SEVERITY_NOTIFICATION: u32 = 0x826B;

/// The level at which a line is logged.
#[derive(Clone, Copy, Debug, PartialEq, Eq, Hash, Structural)]
pub enum Level {
    Debug,
    Info,
    Warn,
    Error,
}

/// A tag that the driver sent and the API does not know.
#[derive(Clone, Copy, Debug, PartialEq, Eq, Hash, Structural)]
pub enum UnknownTag {
    /// The type of the message is none of the nine of the API.
    Type(u32),
    /// The severity of the message is none of the four of the API.
    Severity(u32),
}

/// A line for the log.
#[derive(Clone, Debug, PartialEq, Eq)]
pub struct LogLine {
    pub level: Level,
    pub text: String,
}

/// The words that open the line of a message of the given type, where the
/// API knows the type. A message of type "other" opens with none.
pub open spec fn spec_type_prefix(ty: u32) -> Option<Seq<char>> {
    if ty == DEBUG_TYPE_ERROR {
        Some("Error: "@)
    } else if ty == DEBUG_TYPE_DEPRECATED_BEHAVIOR {
        Some("Deprecated Behavior: "@)
    } else if ty == DEBUG_TYPE_MARKER {
        Some("Marker: "@)
    } else if ty == DEBUG_TYPE_OTHER {
        Some(""@)
    } else if ty == DEBUG_TYPE_POP_GROUP {
        Some("Pop Group: "@)
    } else if ty == DEBUG_TYPE_PORTABILITY {
        Some("Portability: "@)
    } else if ty == DEBUG_TYPE_PUSH_GROUP {
        Some("Push Group: "@)
    } else if ty == DEBUG_TYPE_UNDEFINED_BEHAVIOR {
        Some("Undefined Behavior: "@)
    } else if ty == DEBUG_TYPE_PERFORMANCE {
        Some("Performance: "@)
    } else {
        None
    }
}

/// The level for a message of the given severity, where the API knows the
/// severity: the graver the message, the higher the level.
pub open spec fn spec_severity_level(severity: u32) -> Option<Level> {
    if severity == DEBUG_SEVERITY_NOTIFICATION {
        Some(Level::Debug)
    } else if severity == DEBUG_SEVERITY_LOW {
        Some(Level::Info)
    } else if severity == DEBUG_SEVERITY_MEDIUM {
        Some(Level::Warn)
    } else if severity == DEBUG_SEVERITY_HIGH {
        Some(Level::Error)
    } else {
        None
    }
}

/// The words that open the line of a message of the given type.
pub fn type_prefix(ty: u32) -> (prefix: Option<&'static str>)
    ensures
        prefix is Some <==> spec_type_prefix(ty) is Some,
        prefix matches Some(words) ==> spec_type_prefix(ty) == Some(words@),
{
    if ty == DEBUG_TYPE_ERROR {
        Some("Error: ")
    } else if ty == DEBUG_TYPE_DEPRECATED_BEHAVIOR {
        Some("Deprecated Behavior: ")
    } else if ty == DEBUG_TYPE_MARKER {
        Some("Marker: ")
    } else if ty == DEBUG_TYPE_OTHER {
        Some("")
    } else if ty == DEBUG_TYPE_POP_GROUP {
        Some("Pop Group: ")
    } else if ty == DEBUG_TYPE_PORTABILITY {
        Some("Portability: ")
    } else if ty == DEBUG_TYPE_PUSH_GROUP {
        Some("Push Group: ")
    } else if ty == DEBUG_TYPE_UNDEFINED_BEHAVIOR {
        Some("Undefined Behavior: ")
    } else if ty == DEBUG_TYPE_PERFORMANCE {
        Some("Performance: ")
    } else {
        None
    }
}

/// The level for a message of the given severity.
pub fn severity_level(severity: u32) -> (level: Option<Level>)
    ensures
        level == spec_severity_level(severity),
{
    if severity == DEBUG_SEVERITY_NOTIFICATION {
        Some(Level::Debug)
    } else if severity == DEBUG_SEVERITY_LOW {
        Some(Level::Info)
    } else if severity == DEBUG_SEVERITY_MEDIUM {
        Some(Level::Warn)
    } else if severity == DEBUG_SEVERITY_HIGH {
        Some(Level::Error)
    } else {
        None
    }
}

/// The log line for a message of the driver: the words of its type, then
/// the message, at the level of its severity.
///
/// An unknown type is refused before the severity is looked at.
pub fn log_line(ty: u32, severity: u32, message: &str) -> (line: Result<LogLine, UnknownTag>)
    ensures
        spec_type_prefix(ty) is None ==> line == Err::<LogLine, UnknownTag>(UnknownTag::Type(ty)),
        spec_type_prefix(ty) is Some && spec_severity_level(severity) is None ==> line == Err::<
            LogLine,
            UnknownTag,
        >(UnknownTag::Severity(severity)),
        line is Ok <==> spec_type_prefix(ty) is Some && spec_severity_level(severity) is Some,
        line matches Ok(l) ==> l.level == spec_severity_level(severity)->Some_0 && l.text@
            == spec_type_prefix(ty)->Some_0 + message@,
{
    match type_prefix(ty) {
        None => Err(UnknownTag::Type(ty)),
        Some(words) => match severity_level(severity) {
            None => Err(UnknownTag::Severity(severity)),
            Some(level) => Ok(LogLine { level, text: String::from_str(words).concat(message) }),
        },
    }
}

} // verus!
