//! Ownership and error translation for a handle-based JOSE engine.
//!
//! The engine itself is reached through functions that the caller supplies;
//! this crate decides what is handed to them and what their answers mean.
//! A resource of the engine is known here by its address, and the address 0
//! is the engine's null.

pub mod decimal;
pub mod error;
pub mod json;
pub mod util;

use crate::error::{
    bail_on_err, empty_slot, native_error, out_error, outcome, text_outcome, ErrorSlot, JoseError,
    JoseErrorView,
};
use crate::json::{json_parse, parse_json};
use crate::util::{borrow_c_string, c_string_of, c_string_text, string_to_c_char};
use vstd::prelude::*;
use vstd::std_specs::convert::FromSpecImpl;
use vstd::string::*;
use vstd::utf8::*;

verus! {

/// The engine's identifier of the curve P-256.
pub const CJOSE_JWK_EC_P_256: i32 = 415;

/// The engine's identifier of the curve P-384.
pub const CJOSE_JWK_EC_P_384: i32 = 715;

/// The engine's identifier of the curve P-521.
pub const CJOSE_JWK_EC_P_521: i32 = 716;

/// The elliptic curves that a key can be generated on.
pub enum JWKECCurve {
    P256,
    P384,
    P521,
}

/// The engine's identifier of a curve.
pub open spec fn curve_id(curve: JWKECCurve) -> i32 {
    match curve {
        JWKECCurve::P256 => CJOSE_JWK_EC_P_256,
        JWKECCurve::P384 => CJOSE_JWK_EC_P_384,
        JWKECCurve::P521 => CJOSE_JWK_EC_P_521,
    }
}

impl From<JWKECCurve> for i32 {
    fn from(curve: JWKECCurve) -> (id: i32) {
        match curve {
            JWKECCurve::P256 => CJOSE_JWK_EC_P_256,
            JWKECCurve::P384 => CJOSE_JWK_EC_P_384,
            JWKECCurve::P521 => CJOSE_JWK_EC_P_521,
        }
    }
}

impl FromSpecImpl<JWKECCurve> for i32 {
    open spec fn obeys_from_spec() -> bool {
        true
    }

    open spec fn from_spec(curve: JWKECCurve) -> i32 {
        curve_id(curve)
    }
}

/// Different curves have different identifiers.
pub proof fn lemma_curve_ids_distinct(a: JWKECCurve, b: JWKECCurve)
    requires
        curve_id(a) == curve_id(b),
    ensures
        a == b,
{
}

/// What a key export comes to: the engine's failure where it sent no text,
/// else what the text parses to.
pub open spec fn json_outcome(json: Option<Vec<u8>>, err: ErrorSlot) -> Result<
    serde_json::Value,
    JoseErrorView,
> {
    match json {
        None => Err(native_error(err)),
        Some(buffer) => match json_parse(c_string_text(buffer@)) {
            Ok(value) => Ok(value),
            Err(error) => Err(JoseErrorView::JsonError(error)),
        },
    }
}

/// What a decryption comes to: the engine's failure where it sent no buffer,
/// else the text that the whole buffer encodes, if it encodes one.
pub open spec fn plaintext_outcome(plaintext: Option<Vec<u8>>, err: ErrorSlot) -> Result<
    Seq<char>,
    JoseErrorView,
> {
    match plaintext {
        None => Err(native_error(err)),
        Some(buffer) => if valid_utf8(buffer@) {
            Ok(decode_utf8(buffer@))
        } else {
            Err(JoseErrorView::InvalidEncoding)
        },
    }
}

/// Content that is text comes back as that text: where the engine answers
/// with the bytes that encode `text`, decryption gives exactly `text`.
pub proof fn lemma_plaintext_round_trip(text: Seq<char>, buffer: Vec<u8>, err: ErrorSlot)
    requires
        buffer@ == encode_utf8(text),
    ensures
        plaintext_outcome(Some(buffer), err) == Ok::<Seq<char>, JoseErrorView>(text),
{
    encode_utf8_valid_utf8(text);
    encode_utf8_decode_utf8(text);
}

/// Decryption never passes garbage on as text. It succeeds exactly where the
/// engine answered with a buffer that is valid UTF-8; where it answered with
/// nothing the error is the engine's failure, and where the buffer is not
/// valid UTF-8 the error says so.
pub proof fn lemma_plaintext_failures(plaintext: Option<Vec<u8>>, err: ErrorSlot)
    ensures
        plaintext_outcome(plaintext, err) is Ok <==> plaintext is Some && valid_utf8(
            plaintext->Some_0@,
        ),
        plaintext is None ==> plaintext_outcome(plaintext, err) == Err::<Seq<char>, JoseErrorView>(
            native_error(err),
        ),
        plaintext is Some && !valid_utf8(plaintext->Some_0@) ==> plaintext_outcome(plaintext, err)
            == Err::<Seq<char>, JoseErrorView>(JoseErrorView::InvalidEncoding),
{
}

/// A key of the engine. The handle is the key's only owner: it cannot be
/// copied, and `release` ends it.
#[derive(Debug)]
pub struct JWK {
    jwk: usize,
}

/// An encrypted message that the engine has parsed. The handle is the
/// message's only owner: it cannot be copied, and `release` ends it.
#[derive(Debug)]
pub struct JWE {
    jwe: usize,
}

impl JWK {
    #[verifier::type_invariant]
    spec fn owns_resource(&self) -> bool {
        self.jwk != 0
    }

    /// The address of the key.
    pub closed spec fn resource(&self) -> usize {
        self.jwk
    }

    /// `r` is what a key creation comes to that answered `jwk` and `err`: a
    /// handle on `jwk` where it is not null, else the engine's failure.
    pub open spec fn created(r: Result<JWK, JoseError>, jwk: usize, err: ErrorSlot) -> bool {
        match r {
            Ok(key) => jwk != 0 && key.resource() == jwk,
            Err(error) => jwk == 0 && error@ == native_error(err),
        }
    }

    /// Takes the answer of a key creation: the address of the new key, or
    /// null, and the error record of the call.
    pub fn from_raw(jwk: usize, err: ErrorSlot) -> (r: Result<JWK, JoseError>)
        ensures
            JWK::created(r, jwk, err),
    {
        let found = if jwk == 0 {
            None
        } else {
            Some(jwk)
        };
        match bail_on_err(found, err) {
            Ok(jwk) => Ok(JWK { jwk }),
            Err(error) => Err(error),
        }
    }

    /// Takes the answer of a key export: the buffer that holds the JSON text
    /// as a C string, or nothing, and the error record of the call.
    pub fn read_json(json: Option<Vec<u8>>, err: ErrorSlot) -> (r: Result<
        serde_json::Value,
        JoseError,
    >)
        ensures
            outcome(r) == json_outcome(json, err),
    {
        match bail_on_err(json, err) {
            Ok(json_str) => {
                let json_str = borrow_c_string(json_str);
                match parse_json(json_str.as_str()) {
                    Ok(value) => Ok(value),
                    Err(error) => Err(JoseError::from(error)),
                }
            },
            Err(error) => Err(error),
        }
    }

    /// Takes the answer of a decryption: the buffer that holds the content,
    /// all of it and nothing else, or nothing, and the error record of the
    /// call.
    pub fn read_plaintext(plaintext: Option<Vec<u8>>, err: ErrorSlot) -> (r: Result<
        String,
        JoseError,
    >)
        ensures
            text_outcome(r) == plaintext_outcome(plaintext, err),
    {
        match bail_on_err(plaintext, err) {
            Ok(plaintext) => match String::from_utf8(plaintext) {
                Ok(text) => {
                    proof {
                        encode_utf8_decode_utf8(text@);
                    }
                    Ok(text)
                },
                Err(_) => Err(JoseError::InvalidEncoding),
            },
            Err(error) => Err(error),
        }
    }

    /// Creates a new elliptic-curve key. `call` is the engine's generator of
    /// random keys: it gets the curve's identifier and a fresh error record,
    /// and answers with the key's address, or null, and the record.
    pub fn from_random_ec<F>(curve: JWKECCurve, call: F) -> (r: Result<JWK, JoseError>) where
        F: FnOnce(i32, ErrorSlot) -> (usize, ErrorSlot),

        requires
            call.requires((curve_id(curve), empty_slot())),
        ensures
            exists|answer: (usize, ErrorSlot)|
                #[trigger] call.ensures((curve_id(curve), empty_slot()), answer)
                    && JWK::created(r, answer.0, answer.1),
    {
        let err = out_error();
        let (jwk, err) = call(i32::from(curve), err);
        JWK::from_raw(jwk, err)
    }

    /// Exports the key as JSON. `call` is the engine's export: it gets the
    /// key's address, `include_private` and a fresh error record, and
    /// answers with the buffer that holds the text, or nothing, and the
    /// record.
    pub fn to_json<F>(&self, include_private: bool, call: F) -> (r: Result<
        serde_json::Value,
        JoseError,
    >) where F: FnOnce(usize, bool, ErrorSlot) -> (Option<Vec<u8>>, ErrorSlot)
        requires
            self.resource() != 0 ==> call.requires(
                (self.resource(), include_private, empty_slot()),
            ),
        ensures
            exists|answer: (Option<Vec<u8>>, ErrorSlot)|
                #[trigger] call.ensures(
                    (self.resource(), include_private, empty_slot()),
                    answer,
                ) && outcome(r) == json_outcome(answer.0, answer.1),
            self.resource() != 0,
    {
        proof {
            use_type_invariant(self);
        }
        let err = out_error();
        let (json, err) = call(self.jwk, include_private, err);
        JWK::read_json(json, err)
    }

    /// Decrypts `jwe` with this key. `call` is the engine's decryption: it
    /// gets the message's address, the key's address and a fresh error
    /// record, and answers with the buffer that holds the content, or
    /// nothing, and the record. Neither handle is used up.
    pub fn decrypt<F>(&self, jwe: &JWE, call: F) -> (r: Result<String, JoseError>) where
        F: FnOnce(usize, usize, ErrorSlot) -> (Option<Vec<u8>>, ErrorSlot),

        requires
            jwe.resource() != 0 && self.resource() != 0 ==> call.requires(
                (jwe.resource(), self.resource(), empty_slot()),
            ),
        ensures
            exists|answer: (Option<Vec<u8>>, ErrorSlot)|
                #[trigger] call.ensures((jwe.resource(), self.resource(), empty_slot()), answer)
                    && text_outcome(r) == plaintext_outcome(answer.0, answer.1),
            jwe.resource() != 0,
            self.resource() != 0,
    {
        proof {
            use_type_invariant(self);
            use_type_invariant(jwe);
        }
        let err = out_error();
        let (plaintext, err) = call(jwe.jwe, self.jwk, err);
        JWK::read_plaintext(plaintext, err)
    }

    /// Ends the handle. `call` is the engine's release of a key: it gets the
    /// key's address, once.
    pub fn release<F>(self, call: F) where F: FnOnce(usize)
        requires
            self.resource() != 0 ==> call.requires((self.resource(),)),
        ensures
            self.resource() != 0,
            call.ensures((self.resource(),), ()),
    {
        proof {
            use_type_invariant(&self);
        }
        call(self.jwk)
    }
}

impl JWE {
    #[verifier::type_invariant]
    spec fn owns_resource(&self) -> bool {
        self.jwe != 0
    }

    /// The address of the message.
    pub closed spec fn resource(&self) -> usize {
        self.jwe
    }

    /// `r` is what an import comes to that answered `jwe` and `err`: a handle
    /// on `jwe` where it is not null, else the engine's failure.
    pub open spec fn imported(r: Result<JWE, JoseError>, jwe: usize, err: ErrorSlot) -> bool {
        match r {
            Ok(envelope) => jwe != 0 && envelope.resource() == jwe,
            Err(error) => jwe == 0 && error@ == native_error(err),
        }
    }

    /// Takes the answer of an import: the address of the parsed message, or
    /// null, and the error record of the call.
    pub fn from_raw(jwe: usize, err: ErrorSlot) -> (r: Result<JWE, JoseError>)
        ensures
            JWE::imported(r, jwe, err),
    {
        let found = if jwe == 0 {
            None
        } else {
            Some(jwe)
        };
        match bail_on_err(found, err) {
            Ok(jwe) => Ok(JWE { jwe }),
            Err(error) => Err(error),
        }
    }

    /// Creates a message from its compact serialization. `call` is the
    /// engine's import: it gets the text in a NUL-terminated buffer of its
    /// own, the text's length in bytes without the NUL, and a fresh error
    /// record, and answers with the message's address, or null, and the
    /// record. The buffer is given away: the engine owns it from then on.
    /// Any text is handed over as it is; what the engine makes of it is the
    /// engine's to say.
    pub fn import<F>(input: &str, call: F) -> (r: Result<JWE, JoseError>) where
        F: FnOnce(Vec<u8>, usize, ErrorSlot) -> (usize, ErrorSlot),

        requires
            forall|compact: Vec<u8>|
                compact@ == c_string_of(input@) ==> #[trigger] call.requires(
                    (compact, input.spec_bytes().len() as usize, empty_slot()),
                ),
        ensures
            exists|compact: Vec<u8>, answer: (usize, ErrorSlot)|
                compact@ == c_string_of(input@) && #[trigger] call.ensures(
                    (compact, input.spec_bytes().len() as usize, empty_slot()),
                    answer,
                ) && JWE::imported(r, answer.0, answer.1),
    {
        let compact = string_to_c_char(input);
        let compact_len = input.len();
        let err = out_error();
        let (jwe, err) = call(compact, compact_len, err);
        JWE::from_raw(jwe, err)
    }

    /// Ends the handle. `call` is the engine's release of a message: it gets
    /// the message's address, once.
    pub fn release<F>(self, call: F) where F: FnOnce(usize)
        requires
            self.resource() != 0 ==> call.requires((self.resource(),)),
        ensures
            self.resource() != 0,
            call.ensures((self.resource(),), ()),
    {
        proof {
            use_type_invariant(&self);
        }
        call(self.jwe)
    }
}

} // verus!
