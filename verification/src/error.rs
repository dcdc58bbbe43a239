//! Errors, and the single place where a foreign status becomes one.
use vstd::prelude::*;

verus! {

/// The status that every fallible call of the foreign library returns.
#[derive(Clone, Copy, Debug, PartialEq, Eq, Structural)]
pub enum ResultCode {
    Success,
    InvalidSpirv,
    UnsupportedSpirv,
    OutOfMemory,
    InvalidArgument,
}

/// The kinds of failure that only the foreign library can report.
#[derive(Clone, Copy, Debug, PartialEq, Eq, Structural)]
pub enum ForeignFailure {
    InvalidSpirv,
    UnsupportedSpirv,
    InvalidArgument,
}

/// A string that cannot cross the foreign boundary: it holds a zero byte
/// before its end.
#[derive(Clone, Copy, Debug, PartialEq, Eq, Structural)]
pub struct NulError {
    /// Index of the first zero byte in the string's UTF-8 encoding.
    pub nul_position: usize,
}

/// Everything that can go wrong in this crate.
#[derive(Debug, PartialEq, Eq)]
pub enum SpirvCrossError {
    /// The foreign allocator could not produce a context or a compiler.
    OutOfMemory(String),
    /// The foreign library refused a call. `message` is its last error
    /// string, if one was captured; `context` is the address of the context
    /// that reported it.
    Foreign { failure: ForeignFailure, message: Option<String>, context: usize },
    /// A handle or a proof was presented to a compiler instance that did not
    /// issue it.
    InvalidOperation(String),
    /// A string meant for the foreign library holds an embedded zero byte.
    InvalidString(NulError),
}

/// What a `SpirvCrossError` says, with its texts as sequences of characters.
pub enum ErrorView {
    OutOfMemory(Seq<char>),
    Foreign { failure: ForeignFailure, message: Option<Seq<char>>, context: usize },
    InvalidOperation(Seq<char>),
    InvalidString(NulError),
}

impl View for SpirvCrossError {
    type V = ErrorView;

    open spec fn view(&self) -> ErrorView {
        match self {
            SpirvCrossError::OutOfMemory(s) => ErrorView::OutOfMemory(s@),
            SpirvCrossError::Foreign { failure, message, context } => ErrorView::Foreign {
                failure: *failure,
                message: match message {
                    Some(m) => Some(m@),
                    None => None,
                },
                context: *context,
            },
            SpirvCrossError::InvalidOperation(s) => ErrorView::InvalidOperation(s@),
            SpirvCrossError::InvalidString(e) => ErrorView::InvalidString(*e),
        }
    }
}

/// The text of the error for an allocation that the foreign library could
/// not make.
pub open spec fn out_of_memory_text() -> Seq<char> {
    "Out of memory"@
}

/// The view of a result whose error is a `SpirvCrossError`.
pub open spec fn result_view<T>(r: Result<T, SpirvCrossError>) -> Result<T, ErrorView> {
    match r {
        Ok(v) => Ok(v),
        Err(e) => Err(e@),
    }
}

/// The outcome of a foreign call: its status, and the context's last error
/// string where the caller captured one.
#[derive(Debug, PartialEq, Eq)]
pub struct ForeignStatus {
    pub code: ResultCode,
    pub message: Option<String>,
}

impl ForeignStatus {
    /// The message as a sequence of characters.
    pub open spec fn message_view(self) -> Option<Seq<char>> {
        match self.message {
            Some(m) => Some(m@),
            None => None,
        }
    }

    /// What `ok` returns for this status, reported by the context at
    /// address `context`.
    pub open spec fn translated(self, context: usize) -> Result<(), ErrorView> {
        match self.code {
            ResultCode::Success => Ok(()),
            ResultCode::OutOfMemory => Err(
                ErrorView::OutOfMemory(
                    match self.message_view() {
                        Some(m) => m,
                        None => out_of_memory_text(),
                    },
                ),
            ),
            ResultCode::InvalidSpirv => Err(
                ErrorView::Foreign {
                    failure: ForeignFailure::InvalidSpirv,
                    message: self.message_view(),
                    context,
                },
            ),
            ResultCode::UnsupportedSpirv => Err(
                ErrorView::Foreign {
                    failure: ForeignFailure::UnsupportedSpirv,
                    message: self.message_view(),
                    context,
                },
            ),
            ResultCode::InvalidArgument => Err(
                ErrorView::Foreign {
                    failure: ForeignFailure::InvalidArgument,
                    message: self.message_view(),
                    context,
                },
            ),
        }
    }

    /// A status with the given code and no message.
    pub fn new(code: ResultCode) -> (s: ForeignStatus)
        ensures
            s.code == code,
            s.message is None,
    {
        ForeignStatus { code, message: None }
    }

    /// Turns the status of a foreign call into a result. Every foreign call
    /// that returns a status goes through here: success is `Ok`, and each
    /// other code becomes the error of its kind, with the message that was
    /// captured.
    pub fn ok(self, context: usize) -> (r: Result<(), SpirvCrossError>)
        ensures
            result_view(r) == self.translated(context),
    {
        match self.code {
            ResultCode::Success => Ok(()),
            ResultCode::OutOfMemory => match self.message {
                Some(m) => Err(SpirvCrossError::OutOfMemory(m)),
                None => Err(out_of_memory()),
            },
            ResultCode::InvalidSpirv => Err(
                SpirvCrossError::Foreign {
                    failure: ForeignFailure::InvalidSpirv,
                    message: self.message,
                    context,
                },
            ),
            ResultCode::UnsupportedSpirv => Err(
                SpirvCrossError::Foreign {
                    failure: ForeignFailure::UnsupportedSpirv,
                    message: self.message,
                    context,
                },
            ),
            ResultCode::InvalidArgument => Err(
                SpirvCrossError::Foreign {
                    failure: ForeignFailure::InvalidArgument,
                    message: self.message,
                    context,
                },
            ),
        }
    }
}

/// The error for an allocation that the foreign library could not make.
pub fn out_of_memory() -> (e: SpirvCrossError)
    ensures
        e@ == ErrorView::OutOfMemory(out_of_memory_text()),
{
    SpirvCrossError::OutOfMemory("Out of memory".to_owned())
}

/// The error for a handle or a proof that the compiler did not issue.
pub fn invalid_operation(text: &str) -> (e: SpirvCrossError)
    ensures
        e@ == ErrorView::InvalidOperation(text@),
{
    SpirvCrossError::InvalidOperation(text.to_owned())
}

impl SpirvCrossError {
    /// The error for a string with an embedded zero byte.
    pub fn from_nul_error(e: NulError) -> (r: SpirvCrossError)
        ensures
            r@ == ErrorView::InvalidString(e),
    {
        SpirvCrossError::InvalidString(e)
    }
}

} // verus!
