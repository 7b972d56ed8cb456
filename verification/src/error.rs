use vstd::prelude::*;

verus! {

/// Errors raised by the library.
#[derive(Debug, Clone, PartialEq, Eq)]
pub enum ErrorCode {
    /// An operation was refused because the server runs in management mode.
    ManagementModePermissionDenied(String),
    /// Evaluating a filter expression failed.
    EvalFilterFailed(String),
    /// A table could not be looked up.
    UnknownTable(String),
}

/// The message an error carries.
pub open spec fn error_message(e: ErrorCode) -> Seq<char> {
    match e {
        ErrorCode::ManagementModePermissionDenied(m) => m@,
        ErrorCode::EvalFilterFailed(m) => m@,
        ErrorCode::UnknownTable(m) => m@,
    }
}

/// Two errors of the same kind.
pub open spec fn same_kind(a: ErrorCode, b: ErrorCode) -> bool {
    match (a, b) {
        (ErrorCode::ManagementModePermissionDenied(_), ErrorCode::ManagementModePermissionDenied(_)) => true,
        (ErrorCode::EvalFilterFailed(_), ErrorCode::EvalFilterFailed(_)) => true,
        (ErrorCode::UnknownTable(_), ErrorCode::UnknownTable(_)) => true,
        _ => false,
    }
}

/// `message`, a line break, then `text`.
fn prefixed(message: &str, text: &String) -> (r: String)
    ensures
        r@ == message@ + "\n"@ + text@,
{
    let mut r = String::from_str(message);
    r.append("\n");
    r.append(text.as_str());
    r
}

impl ErrorCode {
    /// The message of the error.
    pub fn message(&self) -> (r: &String)
        ensures
            r@ == error_message(*self),
    {
        match self {
            ErrorCode::ManagementModePermissionDenied(m) => m,
            ErrorCode::EvalFilterFailed(m) => m,
            ErrorCode::UnknownTable(m) => m,
        }
    }

    /// The same error with `message` put in front of its message, on a line
    /// of its own.
    pub fn add_message(self, message: &str) -> (r: ErrorCode)
        ensures
            same_kind(r, self),
            error_message(r) == message@ + "\n"@ + error_message(self),
    {
        match self {
            ErrorCode::ManagementModePermissionDenied(m) => {
                ErrorCode::ManagementModePermissionDenied(prefixed(message, &m))
            },
            ErrorCode::EvalFilterFailed(m) => ErrorCode::EvalFilterFailed(prefixed(message, &m)),
            ErrorCode::UnknownTable(m) => ErrorCode::UnknownTable(prefixed(message, &m)),
        }
    }
}

} // verus!
