//! The error type of the library and the rule that turns a FaceSDK status code into
//! a result.

use vstd::prelude::*;

use crate::consts::{error_name, error_name_of, FSDKE_FACE_NOT_FOUND, FSDKE_OK};
use crate::text::{append_chars, push_signed_decimal, signed_decimal, string_from};

verus! {

/// An error of the FaceSDK library or of its use.
#[derive(Debug)]
pub enum FsdkError {
    /// The native library could not be loaded.
    LibraryLoadError(String),
    /// A FaceSDK function returned an error code.
    FsdkError { func: &'static str, code: i32, name: &'static str },
    /// A text argument could not be handed to the native library.
    InvalidString(String),
}

/// Results of the library.
pub type Result<T> = std::result::Result<T, FsdkError>;

/// The error that a failing FaceSDK function `func` reports with `code`.
pub open spec fn code_error(func: &'static str, code: i32) -> FsdkError {
    FsdkError::FsdkError { func, code, name: error_name_of(code) }
}

/// The result that a FaceSDK status code stands for: success exactly on `FSDKE_OK`.
pub open spec fn status_result(func: &'static str, status: i32) -> Result<()> {
    if status == FSDKE_OK {
        Ok(())
    } else {
        Err(code_error(func, status))
    }
}

/// The message of an error, as it is displayed.
pub open spec fn message_text(e: FsdkError) -> Seq<char> {
    match e {
        FsdkError::LibraryLoadError(m) => "FSDK library loading error: "@ + m@,
        FsdkError::FsdkError { func, code, name } => "FSDK function "@ + func@ + " failed with error "@
            + signed_decimal(code as int) + " ("@ + name@ + ")"@,
        FsdkError::InvalidString(m) => "Invalid string: "@ + m@,
    }
}

impl FsdkError {
    /// The message of the error, as it is displayed.
    pub fn message(&self) -> (m: String)
        ensures
            m@ == message_text(*self),
    {
        match self {
            FsdkError::LibraryLoadError(msg) => {
                let mut m = string_from("FSDK library loading error: ");
                append_chars(&mut m, msg.as_str());
                m
            },
            FsdkError::FsdkError { func, code, name } => {
                let mut m = string_from("FSDK function ");
                append_chars(&mut m, func);
                append_chars(&mut m, " failed with error ");
                push_signed_decimal(&mut m, *code as i64);
                append_chars(&mut m, " (");
                append_chars(&mut m, name);
                append_chars(&mut m, ")");
                m
            },
            FsdkError::InvalidString(msg) => {
                let mut m = string_from("Invalid string: ");
                append_chars(&mut m, msg.as_str());
                m
            },
        }
    }

    /// Builds the error that a failing FaceSDK function reports.
    pub fn from_code(func: &'static str, code: i32) -> (e: Self)
        ensures
            e == code_error(func, code),
    {
        FsdkError::FsdkError { func, code, name: error_name(code) }
    }

    /// Returns true if this error indicates face was not found
    pub fn is_face_not_found(&self) -> (b: bool)
        ensures
            b == (self is FsdkError && self->code == FSDKE_FACE_NOT_FOUND),
    {
        match self {
            FsdkError::FsdkError { code, .. } => *code == FSDKE_FACE_NOT_FOUND,
            _ => false,
        }
    }
}

/// Turns the status code that the FaceSDK function `func` returned into a result.
pub fn check_result(func: &'static str, status: i32) -> (r: Result<()>)
    ensures
        r == status_result(func, status),
{
    if status == FSDKE_OK {
        Ok(())
    } else {
        Err(FsdkError::from_code(func, status))
    }
}

/// A status code is reported as a face-not-found error exactly when it is
/// `FSDKE_FACE_NOT_FOUND`, whichever function reported it.
pub proof fn lemma_face_not_found_iff_code(func: &'static str, status: i32)
    ensures
        (status_result(func, status) matches Err(e) && e is FsdkError
            && e->code == FSDKE_FACE_NOT_FOUND) <==> status == FSDKE_FACE_NOT_FOUND,
        status_result(func, status) is Ok <==> status == FSDKE_OK,
{
}

} // verus!
