//! The document's bytes as text.

use std::str::Utf8Error;
use vstd::prelude::*;
use vstd::utf8::{decode_utf8, valid_utf8};

verus! {

/// `std::str::Utf8Error`, the error of a failed reading as UTF-8. Opaque.
#[verifier::external_type_specification]
#[verifier::external_body]
pub struct ExUtf8Error(Utf8Error);

/// `std::str::from_utf8`: the bytes as a string slice, if they are UTF-8.
pub assume_specification<'a>[ core::str::from_utf8 ](bytes: &'a [u8]) -> (r: Result<
    &'a str,
    Utf8Error,
>)
    ensures
        match r {
            Ok(text) => valid_utf8(bytes@) && text@ == decode_utf8(bytes@),
            Err(_) => !valid_utf8(bytes@),
        },
;

} // verus!
