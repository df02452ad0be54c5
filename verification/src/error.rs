//! The library's error type.

use vstd::prelude::*;

verus! {

/// Errors reported by the library.
#[derive(Debug)]
pub enum RayError {
    /// The Ray runtime reported a failure.
    Runtime(String),
    /// A value could not be encoded or decoded.
    Serialization(String),
    /// A call across the C interface failed.
    Ffi(String),
    /// An object was not found in the object store.
    ObjectNotFound(String),
    /// A string handed to C held a NUL byte.
    NullByte,
    /// Bytes were not valid UTF-8.
    Utf8,
}

impl RayError {
    /// The human-readable message of an error.
    pub open spec fn message(&self) -> Seq<char> {
        match self {
            RayError::Runtime(m) => "Ray runtime error: "@ + m@,
            RayError::Serialization(m) => "Serialization error: "@ + m@,
            RayError::Ffi(m) => "FFI error: "@ + m@,
            RayError::ObjectNotFound(m) => "Object not found: "@ + m@,
            RayError::NullByte => "Null byte in string"@,
            RayError::Utf8 => "UTF-8 conversion error"@,
        }
    }

    /// Renders the error as its human-readable message.
    pub fn to_string(&self) -> (r: String)
        ensures
            r@ == self.message(),
    {
        match self {
            RayError::Runtime(m) => String::from_str("Ray runtime error: ").concat(m.as_str()),
            RayError::Serialization(m) => String::from_str("Serialization error: ").concat(
                m.as_str(),
            ),
            RayError::Ffi(m) => String::from_str("FFI error: ").concat(m.as_str()),
            RayError::ObjectNotFound(m) => String::from_str("Object not found: ").concat(
                m.as_str(),
            ),
            RayError::NullByte => String::from_str("Null byte in string"),
            RayError::Utf8 => String::from_str("UTF-8 conversion error"),
        }
    }
}

/// The message used when the C side left no error text.
pub open spec fn unknown_ffi_error() -> Seq<char> {
    "unknown FFI error"@
}

/// The error text the C side left, or the fallback text when it left none.
pub open spec fn reported_text(last_error: Option<String>) -> Seq<char> {
    match last_error {
        Some(m) => m@,
        None => unknown_ffi_error(),
    }
}

/// The message of an FFI failure of the call named `context`.
pub open spec fn ffi_message(context: Seq<char>, last_error: Option<String>) -> Seq<char> {
    context + ": "@ + reported_text(last_error)
}

/// The message of an FFI failure of the call named `context` on `detail`.
pub open spec fn ffi_detail_message(
    context: Seq<char>,
    detail: Seq<char>,
    last_error: Option<String>,
) -> Seq<char> {
    context + " ("@ + detail + "): "@ + reported_text(last_error)
}

fn reported(last_error: Option<String>) -> (r: String)
    ensures
        r@ == reported_text(last_error),
{
    match last_error {
        Some(m) => m,
        None => String::from_str("unknown FFI error"),
    }
}

/// Builds an FFI error for the call named `context`, with the C-side error
/// text when there is one.
pub fn ffi_error(context: &str, last_error: Option<String>) -> (e: RayError)
    ensures
        e matches RayError::Ffi(m) && m@ == ffi_message(context@, last_error),
{
    let msg = String::from_str(context).concat(": ").concat(reported(last_error).as_str());
    RayError::Ffi(msg)
}

/// Builds an FFI error for the call named `context` on `detail`, with the
/// C-side error text when there is one.
pub fn ffi_error_detail(context: &str, detail: &str, last_error: Option<String>) -> (e: RayError)
    ensures
        e matches RayError::Ffi(m) && m@ == ffi_detail_message(context@, detail@, last_error),
{
    let msg = String::from_str(context).concat(" (").concat(detail).concat("): ").concat(
        reported(last_error).as_str(),
    );
    RayError::Ffi(msg)
}

} // verus!
