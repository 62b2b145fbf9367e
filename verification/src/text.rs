//! Text helpers over the standard library.

use std::string::FromUtf8Error;
use vstd::prelude::*;
use vstd::utf8::*;

verus! {

/// `PartialEq` of `str`: two string slices are equal exactly when they hold the
/// same characters.
pub assume_specification[ <str as PartialEq>::eq ](a: &str, b: &str) -> (r: bool)
    ensures
        r == (a@ == b@),
;

/// Whether two texts hold the same characters.
pub fn same(a: &str, b: &str) -> (r: bool)
    ensures
        r == (a@ == b@),
{
    <str as PartialEq>::eq(a, b)
}

/// `std::string::FromUtf8Error`, carried as an opaque value.
#[verifier::external_type_specification]
#[verifier::external_body]
pub struct ExFromUtf8Error(FromUtf8Error);

/// The message that `Display` of `FromUtf8Error` writes.
pub uninterp spec fn utf8_error_text(error: FromUtf8Error) -> Seq<char>;

/// The message of the error that `String::from_utf8` gives for bytes that are
/// no UTF-8.
pub uninterp spec fn utf8_failure(bytes: Seq<u8>) -> Seq<char>;

/// `String::from_utf8`: bytes that are valid UTF-8 give the string that they
/// encode; any others give an error, whose message [`utf8_failure`] names.
pub assume_specification[ String::from_utf8 ](bytes: Vec<u8>) -> (r: Result<String, FromUtf8Error>)
    ensures
        match r {
            Ok(text) => valid_utf8(bytes@) && text@ == decode_utf8(bytes@),
            Err(error) => !valid_utf8(bytes@) && utf8_error_text(error) == utf8_failure(bytes@),
        },
;

/// `Display` of `FromUtf8Error`, through `to_string`: the message that
/// [`utf8_error_text`] names.
#[verifier::external_body]
pub(crate) fn utf8_error_message(error: &FromUtf8Error) -> (r: String)
    ensures
        r@ == utf8_error_text(*error),
{
    error.to_string()
}

/// What a frame of bytes reads as: its text, or why it is no text.
pub open spec fn read_utf8(bytes: Seq<u8>) -> Result<Seq<char>, Seq<char>> {
    if valid_utf8(bytes) {
        Ok(decode_utf8(bytes))
    } else {
        Err(utf8_failure(bytes))
    }
}

/// Reads bytes as UTF-8 text; on failure hands back the decoder's message.
pub fn utf8_text(bytes: Vec<u8>) -> (r: Result<String, String>)
    ensures
        match r {
            Ok(text) => read_utf8(bytes@) == Ok::<Seq<char>, Seq<char>>(text@),
            Err(message) => read_utf8(bytes@) == Err::<Seq<char>, Seq<char>>(message@),
        },
{
    match String::from_utf8(bytes) {
        Ok(text) => Ok(text),
        Err(error) => Err(utf8_error_message(&error)),
    }
}

} // verus!
