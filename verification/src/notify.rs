//! Texts of the notifications that the plugin sends to the editor.

use vstd::prelude::*;

verus! {

/// The levels of an editor notification.
#[derive(Debug, Clone, Copy, PartialEq, Eq, Structural)]
pub enum LogLevel {
    Trace,
    Debug,
    Info,
    Warn,
    Error,
    Off,
}

/// The upper-case name of a level, as notifications show it.
pub open spec fn level_name(level: LogLevel) -> Seq<char> {
    match level {
        LogLevel::Trace => "TRACE"@,
        LogLevel::Debug => "DEBUG"@,
        LogLevel::Info => "INFO"@,
        LogLevel::Warn => "WARN"@,
        LogLevel::Error => "ERROR"@,
        LogLevel::Off => "OFF"@,
    }
}

/// The text of a notification: the plugin's tag, the level, then the message.
pub open spec fn notification_text(level: LogLevel, msg: Seq<char>) -> Seq<char> {
    "[launch.nvim] "@ + level_name(level) + ": "@ + msg
}

/// Builds the text of a notification of the given level.
pub fn _send(level: LogLevel, msg: &str) -> (r: String)
    ensures
        r@ == notification_text(level, msg@),
{
    let name = match level {
        LogLevel::Trace => "TRACE",
        LogLevel::Debug => "DEBUG",
        LogLevel::Info => "INFO",
        LogLevel::Warn => "WARN",
        LogLevel::Error => "ERROR",
        LogLevel::Off => "OFF",
    };
    let mut r = String::from_str("[launch.nvim] ");
    r.append(name);
    r.append(": ");
    r.append(msg);
    r
}

} // verus!
