//! Toast notifications: the line a toast of a given level writes to the log.
use vstd::prelude::*;
use crate::text::join3;

verus! {

/// How a toast is marked.
#[derive(Debug, Clone, Copy, PartialEq, Eq, Structural)]
pub enum ToastLevel {
    Info,
    Success,
    Error,
}

/// The tag of `level` in the log line.
pub open spec fn level_tag(level: ToastLevel) -> Seq<char> {
    match level {
        ToastLevel::Info => "INFO"@,
        ToastLevel::Success => "OK"@,
        ToastLevel::Error => "ERROR"@,
    }
}

/// The log line of a toast with `message` at `level`:
/// `[toast] LEVEL: message`.
pub fn show_toast(message: &str, level: ToastLevel) -> (res: String)
    ensures
        res@ == "[toast] "@ + level_tag(level) + ": "@ + message@,
{
    let tag = match level {
        ToastLevel::Info => "INFO",
        ToastLevel::Success => "OK",
        ToastLevel::Error => "ERROR",
    };
    let head = join3("[toast] ", tag, ": ");
    head.concat(message)
}

} // verus!
