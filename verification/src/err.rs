//! The closed error taxonomy of the binding layer.
//!
//! A [`BlkidErr`] value is built once, at the point where a fallible
//! operation failed, and is never mutated afterwards. Variants that wrap an
//! underlying cause carry the cause's own rendered text, so that rendering a
//! `BlkidErr` can reproduce the cause verbatim behind a fixed category
//! phrase.

use vstd::prelude::*;
use vstd::string::StringExecFns;
use vstd::string::to_string_from_display_ensures;

verus! {

/// Declares `uuid::Error`, the failure a UUID parse reports, so that a
/// conversion into the unified error can take it.
#[verifier::external_type_specification]
#[verifier::external_body]
pub struct ExUuidError(uuid::Error);

/// Declares `std::io::Error`, the failure a filesystem or device operation
/// reports, so that a conversion into the unified error can take it.
#[verifier::external_type_specification]
#[verifier::external_body]
pub struct ExIoError(std::io::Error);

/// Declares `core::str::Utf8Error`, the failure of validating a borrowed
/// byte slice as UTF-8, so that a conversion into the unified error can
/// take it.
#[verifier::external_type_specification]
#[verifier::external_body]
pub struct ExUtf8Error(core::str::Utf8Error);

/// Declares `std::string::FromUtf8Error`, the failure of taking an owned
/// byte buffer over as UTF-8 text, so that a conversion into the unified
/// error can take it.
#[verifier::external_type_specification]
#[verifier::external_body]
pub struct ExFromUtf8Error(std::string::FromUtf8Error);

/// The result shape of every fallible binding operation.
pub type BlkidResult<T> = Result<T, BlkidErr>;

/// Error representing all errors returned by binding methods.
///
/// Exactly one variant is active per value. Wrapped-cause variants hold the
/// underlying cause's rendered text; `Other` holds a caller-supplied
/// message; the remaining variants carry nothing.
#[derive(Debug)]
pub enum BlkidErr {
    /// A host string contained an embedded null terminator where a C-style
    /// string was required; holds the underlying cause's text.
    Null(String),
    /// A byte buffer expected to be null-terminated was not; holds the
    /// underlying cause's text.
    BytesWithNull(String),
    /// A foreign string buffer could not be taken over as owned text; holds
    /// the underlying cause's text.
    IntoString(String),
    /// A libblkid method returned a positive return code which means nothing.
    PositiveReturnCode,
    /// A conversion failed.
    InvalidConv,
    /// A borrowed byte slice was not valid UTF-8; holds the underlying
    /// cause's text.
    UTF8(String),
    /// An owned byte buffer was not valid UTF-8; holds the underlying
    /// cause's text.
    FromUTF8(String),
    /// A numeric value did not fit the target integer width; holds the
    /// underlying cause's text.
    FromInt(String),
    /// An IO error occurred; holds the underlying cause's text.
    IO(String),
    /// An identifier string was not a valid UUID; holds the underlying
    /// cause's text.
    Uuid(String),
    /// An unspecified error type and an error message providing more
    /// information.
    Other(String),
    /// An error code was returned by libblkid.
    LibErr,
}

/// The canonical one-line rendering of each error variant: wrapped-cause
/// variants render a fixed category phrase followed by the cause's text,
/// `Other` renders its message verbatim, and the payload-free variants
/// render fixed sentences.
pub open spec fn spec_message(e: BlkidErr) -> Seq<char> {
    match e {
        BlkidErr::Null(t) => "Null error during string conversion: "@ + t@,
        BlkidErr::BytesWithNull(t) => "Null error when converting from slice: "@ + t@,
        BlkidErr::IntoString(t) => "Could not convert C string to string: "@ + t@,
        BlkidErr::PositiveReturnCode => "Positive return code found when <= 0 was expected"@,
        BlkidErr::InvalidConv => "The requested conversion was unsuccessful"@,
        BlkidErr::UTF8(t) => "UTF8 error: "@ + t@,
        BlkidErr::FromUTF8(t) => "UTF8 conversion error: "@ + t@,
        BlkidErr::FromInt(t) => "Int conversion error: "@ + t@,
        BlkidErr::IO(t) => "An IO error occurred: "@ + t@,
        BlkidErr::Uuid(t) => "A UUID error occurred: "@ + t@,
        BlkidErr::Other(s) => s@,
        BlkidErr::LibErr => "libblkid returned an error code indicating an operation could not be completed successfully"@,
    }
}

impl BlkidErr {
    /// Renders the error as its canonical one-line human-readable text.
    pub fn message(&self) -> (r: String)
        ensures
            r@ == spec_message(*self),
    {
        match self {
            BlkidErr::Null(t) => "Null error during string conversion: ".to_owned().concat(
                t.as_str(),
            ),
            BlkidErr::BytesWithNull(t) => "Null error when converting from slice: ".to_owned()
                .concat(t.as_str()),
            BlkidErr::IntoString(t) => "Could not convert C string to string: ".to_owned().concat(
                t.as_str(),
            ),
            BlkidErr::PositiveReturnCode => {
                "Positive return code found when <= 0 was expected".to_owned()
            },
            BlkidErr::InvalidConv => "The requested conversion was unsuccessful".to_owned(),
            BlkidErr::UTF8(t) => "UTF8 error: ".to_owned().concat(t.as_str()),
            BlkidErr::FromUTF8(t) => "UTF8 conversion error: ".to_owned().concat(t.as_str()),
            BlkidErr::FromInt(t) => "Int conversion error: ".to_owned().concat(t.as_str()),
            BlkidErr::IO(t) => "An IO error occurred: ".to_owned().concat(t.as_str()),
            BlkidErr::Uuid(t) => "A UUID error occurred: ".to_owned().concat(t.as_str()),
            BlkidErr::Other(s) => s.clone(),
            BlkidErr::LibErr => {
                "libblkid returned an error code indicating an operation could not be completed successfully".to_owned()
            },
        }
    }

    /// Wraps an I/O failure, keeping the cause's own rendered text; the
    /// text is the one `std::io::Error`'s `Display` gives for the cause.
    pub fn from_io(e: std::io::Error) -> (r: BlkidErr)
        ensures
            r matches BlkidErr::IO(t) && to_string_from_display_ensures(&e, t),
    {
        BlkidErr::IO(e.to_string())
    }

    /// Wraps a borrowed-text validation failure, keeping the cause's own
    /// rendered text; the text is the one `core::str::Utf8Error`'s
    /// `Display` gives for the cause.
    pub fn from_utf8(e: core::str::Utf8Error) -> (r: BlkidErr)
        ensures
            r matches BlkidErr::UTF8(t) && to_string_from_display_ensures(&e, t),
    {
        BlkidErr::UTF8(e.to_string())
    }

    /// Wraps an owned-text validation failure, keeping the cause's own
    /// rendered text; the text is the one `std::string::FromUtf8Error`'s
    /// `Display` gives for the cause.
    pub fn from_from_utf8(e: std::string::FromUtf8Error) -> (r: BlkidErr)
        ensures
            r matches BlkidErr::FromUTF8(t) && to_string_from_display_ensures(&e, t),
    {
        BlkidErr::FromUTF8(e.to_string())
    }

    /// Wraps a numeric-range failure, keeping the cause's own rendered
    /// text; the text is the one `std::num::TryFromIntError`'s `Display`
    /// gives for the cause.
    pub fn from_int(e: std::num::TryFromIntError) -> (r: BlkidErr)
        ensures
            r matches BlkidErr::FromInt(t) && to_string_from_display_ensures(&e, t),
    {
        BlkidErr::FromInt(e.to_string())
    }

    /// Wraps a UUID parse failure, keeping the cause's own rendered text;
    /// the text is the one `uuid::Error`'s `Display` gives for the cause.
    pub fn from_uuid(e: uuid::Error) -> (r: BlkidErr)
        ensures
            r matches BlkidErr::Uuid(t) && to_string_from_display_ensures(&e, t),
    {
        BlkidErr::Uuid(e.to_string())
    }

    /// Classifies a native return code under the binding's convention:
    /// `0` is success, a negative code is a failure the library reported
    /// (`LibErr`), and a positive code is outside the library's own
    /// contract (`PositiveReturnCode`), never success.
    pub fn classify_return_code(code: i32) -> (r: BlkidResult<()>)
        ensures
            code == 0 <==> r is Ok,
            code > 0 <==> r == BlkidResult::<()>::Err(BlkidErr::PositiveReturnCode),
            code < 0 <==> r == BlkidResult::<()>::Err(BlkidErr::LibErr),
    {
        if code == 0 {
            Ok(())
        } else if code > 0 {
            Err(BlkidErr::PositiveReturnCode)
        } else {
            Err(BlkidErr::LibErr)
        }
    }
}

/// Each wrapped-cause variant renders as its fixed category phrase followed
/// by the wrapped cause's text, whatever that text is.
pub proof fn lemma_wrapped_cause_rendering(t: String)
    ensures
        spec_message(BlkidErr::Null(t)) == "Null error during string conversion: "@ + t@,
        spec_message(BlkidErr::BytesWithNull(t)) == "Null error when converting from slice: "@
            + t@,
        spec_message(BlkidErr::IntoString(t)) == "Could not convert C string to string: "@ + t@,
        spec_message(BlkidErr::UTF8(t)) == "UTF8 error: "@ + t@,
        spec_message(BlkidErr::FromUTF8(t)) == "UTF8 conversion error: "@ + t@,
        spec_message(BlkidErr::FromInt(t)) == "Int conversion error: "@ + t@,
        spec_message(BlkidErr::IO(t)) == "An IO error occurred: "@ + t@,
        spec_message(BlkidErr::Uuid(t)) == "A UUID error occurred: "@ + t@,
{
}

/// In a rendering of the form `prefix + cause`, the prefix and the cause's
/// text both appear verbatim: they are the two halves of the rendering
/// split at the prefix's length.
pub proof fn lemma_prefix_and_cause_verbatim(prefix: Seq<char>, cause: Seq<char>)
    ensures
        (prefix + cause).take(prefix.len() as int) == prefix,
        (prefix + cause).skip(prefix.len() as int) == cause,
{
    assert((prefix + cause).take(prefix.len() as int) =~= prefix);
    assert((prefix + cause).skip(prefix.len() as int) =~= cause);
}

/// `Other` renders exactly its stored message, with nothing added.
pub proof fn lemma_other_renders_verbatim(s: String)
    ensures
        spec_message(BlkidErr::Other(s)) == s@,
{
}

/// The two return-code variants render two different fixed sentences: a
/// positive return code outside the library's contract stays
/// distinguishable from a failure the library itself reported.
pub proof fn lemma_return_code_variants_distinct()
    ensures
        spec_message(BlkidErr::PositiveReturnCode) != spec_message(BlkidErr::LibErr),
{
    reveal_strlit("Positive return code found when <= 0 was expected");
    reveal_strlit(
        "libblkid returned an error code indicating an operation could not be completed successfully",
    );
    assert(spec_message(BlkidErr::PositiveReturnCode).len() != spec_message(
        BlkidErr::LibErr,
    ).len());
}

/// Rendering is deterministic: any two renderings of one error value carry
/// the same text, since each equals the value's canonical rendering.
pub proof fn lemma_rendering_deterministic(e: BlkidErr, r1: String, r2: String)
    requires
        r1@ == spec_message(e),
        r2@ == spec_message(e),
    ensures
        r1@ == r2@,
{
}

} // verus!
