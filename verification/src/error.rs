//! Errors, and the translation of the engine's error record into them.

use crate::decimal::{decimal, push_decimal};
use crate::json::{json_error_display, json_error_text};
use crate::util::{c_string_text, c_string_to_string};
use vstd::prelude::*;
use vstd::std_specs::convert::FromSpecImpl;
use vstd::string::*;

verus! {

/// The code that the engine leaves in an error record when nothing failed.
pub const CJOSE_ERR_NONE: u32 = 0;

/// The engine's error record, as plain values. A text field is `None` where
/// the engine left a null pointer, and else the buffer that holds its C
/// string.
#[derive(Debug)]
pub struct ErrorSlot {
    pub code: u32,
    pub message: Option<Vec<u8>>,
    pub function: Option<Vec<u8>>,
    pub file: Option<Vec<u8>>,
    pub line: u64,
}

/// What went wrong in an operation of this crate.
#[derive(Debug)]
pub enum JoseError {
    /// The engine reported a failure; the fields are its diagnostics.
    CJoseError { code: u32, message: String, function: String, file: String, line: u64 },
    /// The engine exported a key as text that is not JSON.
    JsonError(serde_json::Error),
    /// Decrypted content is not valid UTF-8.
    InvalidEncoding,
}

/// A `JoseError` with its strings as sequences of characters.
pub ghost enum JoseErrorView {
    CJoseError { code: u32, message: Seq<char>, function: Seq<char>, file: Seq<char>, line: u64 },
    JsonError(serde_json::Error),
    InvalidEncoding,
}

impl View for JoseError {
    type V = JoseErrorView;

    open spec fn view(&self) -> JoseErrorView {
        match self {
            JoseError::CJoseError { code, message, function, file, line } => JoseErrorView::CJoseError {
                code: *code,
                message: message@,
                function: function@,
                file: file@,
                line: *line,
            },
            JoseError::JsonError(error) => JoseErrorView::JsonError(*error),
            JoseError::InvalidEncoding => JoseErrorView::InvalidEncoding,
        }
    }
}

/// A result with its error taken by view.
pub open spec fn outcome<T>(r: Result<T, JoseError>) -> Result<T, JoseErrorView> {
    match r {
        Ok(value) => Ok(value),
        Err(error) => Err(error@),
    }
}

/// A result that holds a string, with the string and the error taken by view.
pub open spec fn text_outcome(r: Result<String, JoseError>) -> Result<Seq<char>, JoseErrorView> {
    match r {
        Ok(text) => Ok(text@),
        Err(error) => Err(error@),
    }
}

/// The record as it stands before a call: no code, no text, no line.
pub open spec fn empty_slot() -> ErrorSlot {
    ErrorSlot { code: CJOSE_ERR_NONE, message: None, function: None, file: None, line: 0 }
}

/// The text of one field of an error record: empty for a null field, else
/// what the field's C string reads as.
pub open spec fn field_text(field: Option<Vec<u8>>) -> Seq<char> {
    match field {
        Some(buffer) => c_string_text(buffer@),
        None => Seq::empty(),
    }
}

/// The error that an error record translates to.
pub open spec fn native_error(slot: ErrorSlot) -> JoseErrorView {
    JoseErrorView::CJoseError {
        code: slot.code,
        message: field_text(slot.message),
        function: field_text(slot.function),
        file: field_text(slot.file),
        line: slot.line,
    }
}

/// The message that describes an engine failure.
pub open spec fn cjose_error_text(
    code: u32,
    message: Seq<char>,
    function: Seq<char>,
    file: Seq<char>,
    line: u64,
) -> Seq<char> {
    "cjose error. Code: "@ + decimal(code as nat) + ", Message: "@ + message + ", Function: "@
        + function + ", File: "@ + file + ", Line: "@ + decimal(line as nat)
}

/// A fresh error record to pass into one guarded call.
pub fn out_error() -> (slot: ErrorSlot)
    ensures
        slot == empty_slot(),
{
    ErrorSlot { code: CJOSE_ERR_NONE, message: None, function: None, file: None, line: 0 }
}

fn field_string(field: &Option<Vec<u8>>) -> (text: String)
    ensures
        text@ == field_text(*field),
{
    match field {
        Some(buffer) => c_string_to_string(buffer.as_slice()),
        None => String::new(),
    }
}

/// Decides by the primary result alone whether a guarded call failed. A
/// result that is there is passed on and the record is dropped unread; a
/// missing result becomes the error that the record describes. Either way
/// the record ends here.
pub fn bail_on_err<T>(ptr: Option<T>, err_ptr: ErrorSlot) -> (r: Result<T, JoseError>)
    ensures
        outcome(r) == match ptr {
            Some(value) => Ok::<T, JoseErrorView>(value),
            None => Err::<T, JoseErrorView>(native_error(err_ptr)),
        },
{
    match ptr {
        Some(value) => Ok(value),
        None => Err(
            JoseError::CJoseError {
                code: err_ptr.code,
                message: field_string(&err_ptr.message),
                function: field_string(&err_ptr.function),
                file: field_string(&err_ptr.file),
                line: err_ptr.line,
            },
        ),
    }
}

impl From<serde_json::Error> for JoseError {
    fn from(error: serde_json::Error) -> (r: JoseError) {
        JoseError::JsonError(error)
    }
}

impl FromSpecImpl<serde_json::Error> for JoseError {
    open spec fn obeys_from_spec() -> bool {
        true
    }

    open spec fn from_spec(error: serde_json::Error) -> JoseError {
        JoseError::JsonError(error)
    }
}

impl JoseError {
    /// A message for people. For an engine failure it lists the record's
    /// fields; for a JSON failure it is what `serde_json` says of it.
    pub fn describe(&self) -> (text: String)
        ensures
            match self@ {
                JoseErrorView::CJoseError { code, message, function, file, line } => text@
                    == cjose_error_text(code, message, function, file, line),
                JoseErrorView::JsonError(error) => text@ == json_error_display(error),
                JoseErrorView::InvalidEncoding => text@ == "Invalid UTF-8!"@,
            },
    {
        match self {
            JoseError::CJoseError { code, message, function, file, line } => {
                let mut text = String::from_str("cjose error. Code: ");
                push_decimal(&mut text, *code as u64);
                text.append(", Message: ");
                text.append(message.as_str());
                text.append(", Function: ");
                text.append(function.as_str());
                text.append(", File: ");
                text.append(file.as_str());
                text.append(", Line: ");
                push_decimal(&mut text, *line);
                text
            },
            JoseError::JsonError(error) => json_error_text(error),
            JoseError::InvalidEncoding => String::from_str("Invalid UTF-8!"),
        }
    }
}

} // verus!
