//! The string bridge: conversions between engine buffers and owned strings.
//!
//! An engine buffer is modelled by the bytes it holds. A C string is a buffer
//! whose text ends before its first NUL byte.

use std::string::FromUtf8Error;
use vstd::prelude::*;
use vstd::slice::*;
use vstd::string::*;
use vstd::utf8::*;

verus! {

/// The bytes of the C string at the start of `buffer`: everything before the
/// first NUL byte, or the whole buffer where no byte is NUL.
pub open spec fn c_string_bytes(buffer: Seq<u8>) -> Seq<u8> {
    match buffer.index_of_first(0u8) {
        Some(end) => buffer.take(end),
        None => buffer,
    }
}

/// The text that `bytes` encode in UTF-8, or the empty text where they are
/// not valid UTF-8.
pub open spec fn text_or_empty(bytes: Seq<u8>) -> Seq<char> {
    if valid_utf8(bytes) {
        decode_utf8(bytes)
    } else {
        Seq::empty()
    }
}

/// The text read from the C string at the start of `buffer`.
pub open spec fn c_string_text(buffer: Seq<u8>) -> Seq<char> {
    text_or_empty(c_string_bytes(buffer))
}

/// The NUL-terminated buffer that holds `text`.
pub open spec fn c_string_of(text: Seq<char>) -> Seq<u8> {
    encode_utf8(text).push(0u8)
}

/// The error of `String::from_utf8`, carried and never looked into.
#[verifier::external_type_specification]
#[verifier::external_body]
pub struct ExFromUtf8Error(FromUtf8Error);

/// `String::from_utf8` accepts exactly the byte vectors that are valid UTF-8,
/// and the string it returns is encoded by the bytes it was given.
pub assume_specification[ String::from_utf8 ](vec: Vec<u8>) -> (r: Result<String, FromUtf8Error>)
    ensures
        r is Ok <==> valid_utf8(vec@),
        r matches Ok(s) ==> encode_utf8(s@) == vec@,
;

/// A prefix that holds no NUL and ends at the buffer's end or at a NUL is the
/// buffer's C string.
proof fn lemma_c_string_bytes(buffer: Seq<u8>, end: int)
    requires
        0 <= end <= buffer.len(),
        forall|j: int| 0 <= j < end ==> buffer[j] != 0,
        end < buffer.len() ==> buffer[end] == 0,
    ensures
        c_string_bytes(buffer) == buffer.take(end),
{
    buffer.index_of_first_ensures(0u8);
    match buffer.index_of_first(0u8) {
        Some(first) => {
            if end < buffer.len() {
                assert(first == end);
            } else {
                assert(buffer[first] == 0);
            }
        },
        None => {
            if end < buffer.len() {
                assert(buffer.contains(0u8));
            }
            assert(buffer.take(end) =~= buffer);
        },
    }
}

/// Copies the C string at the start of `buffer` into an owned string and
/// leaves the buffer to its owner. Bytes that are not valid UTF-8 give the
/// empty string.
pub fn c_string_to_string(buffer: &[u8]) -> (text: String)
    ensures
        text@ == c_string_text(buffer@),
{
    let mut bytes: Vec<u8> = Vec::new();
    let mut i: usize = 0;
    while i < buffer.len() && buffer[i] != 0
        invariant
            i <= buffer.len(),
            bytes@ == buffer@.take(i as int),
            forall|j: int| 0 <= j < i ==> buffer@[j] != 0,
        decreases buffer.len() - i,
    {
        bytes.push(buffer[i]);
        i += 1;
        assert(bytes@ =~= buffer@.take(i as int));
    }
    proof {
        lemma_c_string_bytes(buffer@, i as int);
    }
    match String::from_utf8(bytes) {
        Ok(text) => {
            proof {
                encode_utf8_decode_utf8(text@);
            }
            text
        },
        Err(_) => String::new(),
    }
}

/// Copies the C string at the start of `buffer` into an owned string. The
/// buffer is taken by value and ends here.
pub fn borrow_c_string(buffer: Vec<u8>) -> (text: String)
    ensures
        text@ == c_string_text(buffer@),
{
    c_string_to_string(buffer.as_slice())
}

/// Says whether `r_string` holds a NUL. A text that holds none reads back
/// whole from the buffer that `string_to_c_char` makes of it; one that holds
/// a NUL reads back only as far as that NUL.
pub fn contains_nul(r_string: &str) -> (found: bool)
    ensures
        found == r_string.spec_bytes().contains(0u8),
{
    let bytes = r_string.as_bytes();
    let mut i: usize = 0;
    while i < bytes.len()
        invariant
            i <= bytes.len(),
            bytes@ == r_string.spec_bytes(),
            forall|j: int| 0 <= j < i ==> bytes@[j] != 0,
        decreases bytes.len() - i,
    {
        if bytes[i] == 0 {
            return true;
        }
        i += 1;
    }
    false
}

/// Copies `r_string` into a fresh buffer and ends it with a NUL. Every byte
/// of the text is copied, a NUL inside it too. The buffer is handed out by
/// value: whoever receives it owns it.
pub fn string_to_c_char(r_string: &str) -> (buffer: Vec<u8>)
    ensures
        buffer@ == c_string_of(r_string@),
{
    let mut buffer = slice_to_vec(r_string.as_bytes());
    buffer.push(0u8);
    buffer
}

/// A text without NUL that went out through `string_to_c_char` reads back
/// unchanged through `c_string_to_string`.
pub proof fn lemma_c_string_round_trip(text: Seq<char>)
    requires
        !encode_utf8(text).contains(0u8),
    ensures
        c_string_bytes(c_string_of(text)) == encode_utf8(text),
        c_string_text(c_string_of(text)) == text,
{
    let bytes = encode_utf8(text);
    assert forall|j: int| 0 <= j < bytes.len() implies c_string_of(text)[j] != 0 by {
        assert(bytes.contains(bytes[j]));
    }
    lemma_c_string_bytes(c_string_of(text), bytes.len() as int);
    assert(c_string_of(text).take(bytes.len() as int) =~= bytes);
    encode_utf8_valid_utf8(text);
    encode_utf8_decode_utf8(text);
}

} // verus!
