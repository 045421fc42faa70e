//! GPU diagnostic messages: where they come from, what they are about and
//! how loudly they are reported.

use crate::text::{decimal, decimal_text};
use vstd::prelude::*;

verus! {

/// OpenGL enumerant `GL_DEBUG_SOURCE_API`.
pub const DEBUG_SOURCE_API: u32 = 0x8246;

/// OpenGL enumerant `GL_DEBUG_SOURCE_WINDOW_SYSTEM`.
pub const DEBUG_SOURCE_WINDOW_SYSTEM: u32 = 0x8247;

/// OpenGL enumerant `GL_DEBUG_SOURCE_SHADER_COMPILER`.
pub const DEBUG_SOURCE_SHADER_COMPILER: u32 = 0x8248;

/// OpenGL enumerant `GL_DEBUG_SOURCE_THIRD_PARTY`.
pub const DEBUG_SOURCE_THIRD_PARTY: u32 = 0x8249;

/// OpenGL enumerant `GL_DEBUG_SOURCE_APPLICATION`.
pub const DEBUG_SOURCE_APPLICATION: u32 = 0x824A;

/// OpenGL enumerant `GL_DEBUG_SOURCE_OTHER`.
pub const DEBUG_SOURCE_OTHER: u32 = 0x824B;

/// OpenGL enumerant `GL_DEBUG_TYPE_ERROR`.
pub const DEBUG_TYPE_ERROR: u32 = 0x824C;

/// OpenGL enumerant `GL_DEBUG_TYPE_DEPRECATED_BEHAVIOR`.
pub const DEBUG_TYPE_DEPRECATED_BEHAVIOR: u32 = 0x824D;

/// OpenGL enumerant `GL_DEBUG_TYPE_UNDEFINED_BEHAVIOR`.
pub const DEBUG_TYPE_UNDEFINED_BEHAVIOR: u32 = 0x824E;

/// OpenGL enumerant `GL_DEBUG_TYPE_PORTABILITY`.
pub const DEBUG_TYPE_PORTABILITY: u32 = 0x824F;

/// OpenGL enumerant `GL_DEBUG_TYPE_PERFORMANCE`.
pub const DEBUG_TYPE_PERFORMANCE: u32 = 0x8250;

/// OpenGL enumerant `GL_DEBUG_TYPE_OTHER`.
pub const DEBUG_TYPE_OTHER: u32 = 0x8251;

/// OpenGL enumerant `GL_DEBUG_TYPE_MARKER`.
pub const DEBUG_TYPE_MARKER: u32 = 0x8268;

/// OpenGL enumerant `GL_DEBUG_TYPE_PUSH_GROUP`.
pub const DEBUG_TYPE_PUSH_GROUP: u32 = 0x8269;

/// OpenGL enumerant `GL_DEBUG_TYPE_POP_GROUP`.
pub const DEBUG_TYPE_POP_GROUP: u32 = 0x826A;

/// OpenGL enumerant `GL_DEBUG_SEVERITY_HIGH`.
pub const DEBUG_SEVERITY_HIGH: u32 = 0x9146;

/// OpenGL enumerant `GL_DEBUG_SEVERITY_MEDIUM`.
pub const DEBUG_SEVERITY_MEDIUM: u32 = 0x9147;

/// OpenGL enumerant `GL_DEBUG_SEVERITY_LOW`.
pub const DEBUG_SEVERITY_LOW: u32 = 0x9148;

/// OpenGL enumerant `GL_DEBUG_SEVERITY_NOTIFICATION`.
pub const DEBUG_SEVERITY_NOTIFICATION: u32 = 0x826B;

/// The levels of the log output.
#[derive(Clone, Copy, Debug, PartialEq, Eq, Structural)]
pub enum LogLevel {
    Error,
    Warn,
    Info,
    Debug,
    Trace,
}

/// The level at which a message of a severity is logged.
pub open spec fn level_of(severity: u32) -> LogLevel {
    if severity == DEBUG_SEVERITY_HIGH {
        LogLevel::Error
    } else if severity == DEBUG_SEVERITY_MEDIUM {
        LogLevel::Warn
    } else if severity == DEBUG_SEVERITY_LOW {
        LogLevel::Info
    } else if severity == DEBUG_SEVERITY_NOTIFICATION {
        LogLevel::Debug
    } else {
        LogLevel::Trace
    }
}

/// The name of a message source.
pub open spec fn source_label(source: u32) -> Seq<char> {
    if source == DEBUG_SOURCE_API {
        "API"@
    } else if source == DEBUG_SOURCE_WINDOW_SYSTEM {
        "Window System"@
    } else if source == DEBUG_SOURCE_SHADER_COMPILER {
        "Shader Compiler"@
    } else if source == DEBUG_SOURCE_THIRD_PARTY {
        "Third Party"@
    } else if source == DEBUG_SOURCE_APPLICATION {
        "Application"@
    } else if source == DEBUG_SOURCE_OTHER {
        "Other"@
    } else {
        "Unknown"@
    }
}

/// The name of a message category.
pub open spec fn category_label(category: u32) -> Seq<char> {
    if category == DEBUG_TYPE_ERROR {
        "Error"@
    } else if category == DEBUG_TYPE_DEPRECATED_BEHAVIOR {
        "Deprecated"@
    } else if category == DEBUG_TYPE_UNDEFINED_BEHAVIOR {
        "Undefined Behavior"@
    } else if category == DEBUG_TYPE_PORTABILITY {
        "Portability"@
    } else if category == DEBUG_TYPE_PERFORMANCE {
        "Performance"@
    } else if category == DEBUG_TYPE_MARKER {
        "Marker"@
    } else if category == DEBUG_TYPE_PUSH_GROUP {
        "Push Group"@
    } else if category == DEBUG_TYPE_POP_GROUP {
        "Pop Group"@
    } else if category == DEBUG_TYPE_OTHER {
        "Other"@
    } else {
        "Unknown"@
    }
}

/// The line that is logged for a message:
/// `[GL <source>] <category> (<id>): <message>`.
pub open spec fn log_line(source: u32, category: u32, id: u32, message: Seq<char>) -> Seq<char> {
    "[GL "@ + source_label(source) + "] "@ + category_label(category) + " ("@ + decimal(id as nat)
        + "): "@ + message
}

/// The level at which a message of `severity` is logged: high as an error,
/// medium as a warning, low as information, a notification as debug output
/// and anything else as a trace.
pub fn severity_level(severity: u32) -> (level: LogLevel)
    ensures
        level == level_of(severity),
{
    if severity == DEBUG_SEVERITY_HIGH {
        LogLevel::Error
    } else if severity == DEBUG_SEVERITY_MEDIUM {
        LogLevel::Warn
    } else if severity == DEBUG_SEVERITY_LOW {
        LogLevel::Info
    } else if severity == DEBUG_SEVERITY_NOTIFICATION {
        LogLevel::Debug
    } else {
        LogLevel::Trace
    }
}

/// The name of the source of a message.
pub fn source_name(source: u32) -> (name: &'static str)
    ensures
        name@ == source_label(source),
{
    if source == DEBUG_SOURCE_API {
        "API"
    } else if source == DEBUG_SOURCE_WINDOW_SYSTEM {
        "Window System"
    } else if source == DEBUG_SOURCE_SHADER_COMPILER {
        "Shader Compiler"
    } else if source == DEBUG_SOURCE_THIRD_PARTY {
        "Third Party"
    } else if source == DEBUG_SOURCE_APPLICATION {
        "Application"
    } else if source == DEBUG_SOURCE_OTHER {
        "Other"
    } else {
        "Unknown"
    }
}

/// The name of the category of a message.
pub fn category_name(category: u32) -> (name: &'static str)
    ensures
        name@ == category_label(category),
{
    if category == DEBUG_TYPE_ERROR {
        "Error"
    } else if category == DEBUG_TYPE_DEPRECATED_BEHAVIOR {
        "Deprecated"
    } else if category == DEBUG_TYPE_UNDEFINED_BEHAVIOR {
        "Undefined Behavior"
    } else if category == DEBUG_TYPE_PORTABILITY {
        "Portability"
    } else if category == DEBUG_TYPE_PERFORMANCE {
        "Performance"
    } else if category == DEBUG_TYPE_MARKER {
        "Marker"
    } else if category == DEBUG_TYPE_PUSH_GROUP {
        "Push Group"
    } else if category == DEBUG_TYPE_POP_GROUP {
        "Pop Group"
    } else if category == DEBUG_TYPE_OTHER {
        "Other"
    } else {
        "Unknown"
    }
}

/// A GPU diagnostic message, ready for the log.
#[derive(Debug, PartialEq, Eq)]
pub struct Diagnostic {
    /// The level to log at.
    pub level: LogLevel,
    /// The line to log.
    pub line: String,
}

/// Classifies a GPU diagnostic message by severity, source and category and
/// renders its log line.
pub fn classify(source: u32, category: u32, id: u32, severity: u32, message: &str) -> (diagnostic:
    Diagnostic)
    ensures
        diagnostic.level == level_of(severity),
        diagnostic.line@ == log_line(source, category, id, message@),
{
    let mut line = String::from_str("[GL ");
    line.append(source_name(source));
    line.append("] ");
    line.append(category_name(category));
    line.append(" (");
    line.append(decimal_text(id as usize).as_str());
    line.append("): ");
    line.append(message);
    Diagnostic { level: severity_level(severity), line }
}

} // verus!
