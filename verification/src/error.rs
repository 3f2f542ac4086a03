//! The closed set of failures, their status codes, and the slot that keeps
//! the message of the most recent failure.

use crate::engine::{error_text, fault_of};
use crate::text::{contains_nul, has_nul, join2};
use polars::prelude::PolarsError;
use vstd::prelude::*;
use vstd::string::{StringExecFns, StringSliceAdditionalSpecFns};

verus! {

/// The operation succeeded.
pub const BASIS_OK: i32 = 0;

/// A required pointer argument was absent.
pub const BASIS_ERR_NULL_PTR: i32 = -1;

/// A byte string of the caller is not valid text.
pub const BASIS_ERR_INVALID_UTF8: i32 = -2;

/// Opening, reading or writing at the storage layer failed.
pub const BASIS_ERR_IO: i32 = -3;

/// No column has the name that was asked for.
pub const BASIS_ERR_COLUMN_NOT_FOUND: i32 = -4;

/// The requested element type is not the column's.
pub const BASIS_ERR_TYPE_MISMATCH: i32 = -5;

/// The engine rejected the operation for another reason.
pub const BASIS_ERR_POLARS: i32 = -6;

/// The kinds of failure of a boundary operation.
#[derive(Clone, Copy, Debug, PartialEq, Eq, Structural)]
pub enum ErrorKind {
    NullPointer,
    InvalidUtf8,
    IoError,
    ColumnNotFound,
    TypeMismatch,
    EngineError,
}

impl ErrorKind {
    /// The status code of this kind of failure.
    pub open spec fn spec_code(self) -> int {
        match self {
            ErrorKind::NullPointer => -1,
            ErrorKind::InvalidUtf8 => -2,
            ErrorKind::IoError => -3,
            ErrorKind::ColumnNotFound => -4,
            ErrorKind::TypeMismatch => -5,
            ErrorKind::EngineError => -6,
        }
    }

    /// The status code that reports this kind of failure.
    pub fn code(self) -> (code: i32)
        ensures
            code == self.spec_code(),
    {
        match self {
            ErrorKind::NullPointer => BASIS_ERR_NULL_PTR,
            ErrorKind::InvalidUtf8 => BASIS_ERR_INVALID_UTF8,
            ErrorKind::IoError => BASIS_ERR_IO,
            ErrorKind::ColumnNotFound => BASIS_ERR_COLUMN_NOT_FOUND,
            ErrorKind::TypeMismatch => BASIS_ERR_TYPE_MISMATCH,
            ErrorKind::EngineError => BASIS_ERR_POLARS,
        }
    }

    /// The kind of failure that `code` reports: `None` for success and for
    /// every number outside the closed set.
    pub fn from_code(code: i32) -> (kind: Option<ErrorKind>)
        ensures
            kind matches Some(k) ==> k.spec_code() == code,
            kind is None ==> forall|k: ErrorKind| k.spec_code() != code,
    {
        if code == BASIS_ERR_NULL_PTR {
            Some(ErrorKind::NullPointer)
        } else if code == BASIS_ERR_INVALID_UTF8 {
            Some(ErrorKind::InvalidUtf8)
        } else if code == BASIS_ERR_IO {
            Some(ErrorKind::IoError)
        } else if code == BASIS_ERR_COLUMN_NOT_FOUND {
            Some(ErrorKind::ColumnNotFound)
        } else if code == BASIS_ERR_TYPE_MISMATCH {
            Some(ErrorKind::TypeMismatch)
        } else if code == BASIS_ERR_POLARS {
            Some(ErrorKind::EngineError)
        } else {
            None
        }
    }
}

/// No failure shares the status code of success, and no two kinds of failure
/// share a status code.
pub proof fn lemma_codes_distinct(a: ErrorKind, b: ErrorKind)
    ensures
        a.spec_code() != 0,
        -6 <= a.spec_code() <= -1,
        a.spec_code() == b.spec_code() ==> a == b,
{
}

/// A failure of a boundary operation: its kind and a message for a person.
#[derive(Debug)]
pub struct BoundaryError {
    pub kind: ErrorKind,
    pub message: String,
}

impl View for BoundaryError {
    type V = (ErrorKind, Seq<char>);

    open spec fn view(&self) -> (ErrorKind, Seq<char>) {
        (self.kind, self.message@)
    }
}

/// The message of the most recent failure on one calling thread.
///
/// A failing operation overwrites it, a successful one leaves it as it is.
#[derive(Debug)]
pub struct ErrorSlot {
    last: Option<String>,
}

/// What a slot holds after `message` was recorded in it: the message, or
/// nothing when the message cannot be handed out because it holds a zero byte.
pub open spec fn recorded(message: Seq<char>) -> Option<Seq<char>> {
    if has_nul(vstd::utf8::encode_utf8(message)) {
        None
    } else {
        Some(message)
    }
}

impl View for ErrorSlot {
    type V = Option<Seq<char>>;

    closed spec fn view(&self) -> Option<Seq<char>> {
        match self.last {
            Some(m) => Some(m@),
            None => None,
        }
    }
}

impl ErrorSlot {
    /// A slot without a message.
    pub fn new() -> (slot: ErrorSlot)
        ensures
            slot@ is None,
    {
        ErrorSlot { last: None }
    }

    /// Records `message` as the most recent failure.
    pub fn set_error(&mut self, message: &str)
        ensures
            final(self)@ == recorded(message@),
    {
        if contains_nul(message) {
            self.last = None;
        } else {
            self.last = Some(String::from_str(message));
        }
    }

    /// The message of the most recent failure, if there is one.
    pub fn get_last_error(&self) -> (message: Option<&String>)
        ensures
            message is Some <==> self@ is Some,
            message matches Some(m) ==> Some(m@) == self@,
    {
        self.last.as_ref()
    }

    /// Forgets the message.
    pub fn clear_error(&mut self)
        ensures
            final(self)@ is None,
    {
        self.last = None;
    }
}

/// The engine's failures, as far as this crate tells them apart.
#[derive(Clone, Copy, Debug, PartialEq, Eq, Structural)]
pub enum EngineFault {
    /// A name matched no column.
    ColumnNotFound,
    /// A column has another element type than the operation needs.
    SchemaMismatch,
    /// The storage layer failed below the engine.
    Io,
    /// Any other failure.
    Other,
}

impl EngineFault {
    /// The kind of failure that crosses the boundary for this failure of the
    /// engine.
    pub open spec fn spec_kind(self) -> ErrorKind {
        match self {
            EngineFault::ColumnNotFound => ErrorKind::ColumnNotFound,
            EngineFault::SchemaMismatch => ErrorKind::TypeMismatch,
            EngineFault::Io => ErrorKind::IoError,
            EngineFault::Other => ErrorKind::EngineError,
        }
    }

    /// Converts a failure of the engine into one of the boundary's kinds.
    pub fn kind(self) -> (kind: ErrorKind)
        ensures
            kind == self.spec_kind(),
    {
        match self {
            EngineFault::ColumnNotFound => ErrorKind::ColumnNotFound,
            EngineFault::SchemaMismatch => ErrorKind::TypeMismatch,
            EngineFault::Io => ErrorKind::IoError,
            EngineFault::Other => ErrorKind::EngineError,
        }
    }
}

/// A failure of reading or writing a file of the columnar format.
#[derive(Debug)]
pub enum ParquetError {
    /// The storage layer failed, with its message.
    Io(String),
    /// The engine failed.
    Polars(PolarsError),
    /// The path cannot be used, with the path.
    InvalidPath(String),
}

impl ParquetError {
    /// Whether `text` is a message of this failure: a fixed prefix that names
    /// the source of the failure, then the source's own words.
    pub open spec fn has_message(self, text: Seq<char>) -> bool {
        match self {
            ParquetError::Io(m) => text == "IO error: "@ + m@,
            ParquetError::Polars(_) => exists|detail: Seq<char>|
                text == #[trigger] ("Polars error: "@ + detail),
            ParquetError::InvalidPath(m) => text == "Invalid path: "@ + m@,
        }
    }

    /// The message of this failure.
    pub fn message(&self) -> (text: String)
        ensures
            self.has_message(text@),
    {
        match self {
            ParquetError::Io(m) => join2("IO error: ", m.as_str()),
            ParquetError::Polars(e) => {
                let detail = error_text(e);
                let text = join2("Polars error: ", detail.as_str());
                assert(text@ == "Polars error: "@ + detail@);
                text
            },
            ParquetError::InvalidPath(m) => join2("Invalid path: ", m.as_str()),
        }
    }

    /// Whether a failure of kind `kind` reports this failure: a failure of
    /// the storage layer or of the path is an I/O failure, and one of the
    /// engine is converted by its variant.
    pub open spec fn has_kind(self, kind: ErrorKind) -> bool {
        match self {
            ParquetError::Io(_) => kind == ErrorKind::IoError,
            ParquetError::Polars(_) => kind == ErrorKind::ColumnNotFound || kind
                == ErrorKind::TypeMismatch || kind == ErrorKind::IoError || kind
                == ErrorKind::EngineError,
            ParquetError::InvalidPath(_) => kind == ErrorKind::IoError,
        }
    }

    /// This failure as it crosses the boundary.
    pub fn to_boundary(&self) -> (error: BoundaryError)
        ensures
            self.has_kind(error.kind),
            self.has_message(error.message@),
    {
        let kind = match self {
            ParquetError::Io(_) => ErrorKind::IoError,
            ParquetError::Polars(e) => fault_of(e).kind(),
            ParquetError::InvalidPath(_) => ErrorKind::IoError,
        };
        BoundaryError { kind, message: self.message() }
    }
}

} // verus!
