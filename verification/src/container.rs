//! The decode pipeline: decrypt, trim, read as text, decode.
//!
//! Every stage is a function of what the stage before it gave, and the first
//! stage that fails ends the decode. What a container decodes to is stated
//! once, by [`container_outcome`], over the plaintext that the cipher gives.

use crate::account::AccountModel;
use crate::account_list::{
    account_list_of, decode_document, document_has_fault, is_account_list, JdAccountList,
};
use crate::cbc::{aes_cbc_plaintext, BLOCK_SIZE};
use crate::decryptor::{decrypt_raw_data, without_zero_bytes};
use crate::error::{DecodeCause, ErrorKind, JdError};
use crate::json::{json_document, parse_json};
use crate::keys::ACCOUNT_KEY;
use crate::payload::{has_closing_brace, lemma_trimmed_ends_in_brace, trim_payload, trimmed};
use vstd::prelude::*;
use vstd::utf8::{decode_utf8, valid_utf8};

verus! {

/// What an account list holds: under each group name the accounts of that
/// group, in the order of the document.
pub type AccountListModel = Map<Seq<char>, Seq<AccountModel>>;

/// What a decode gave: the list that it holds, or the stage that failed.
pub open spec fn outcome(r: Result<JdAccountList, JdError>) -> Result<AccountListModel, ErrorKind> {
    match r {
        Ok(list) => Ok(list@),
        Err(e) => Err(e.kind_of()),
    }
}

/// What a text decodes to: the account list of its JSON document.
pub open spec fn text_outcome(text: Seq<char>) -> Result<AccountListModel, ErrorKind> {
    match json_document(text) {
        Some(document) => if is_account_list(document) {
            Ok(account_list_of(document->Object_0))
        } else {
            Err(ErrorKind::Decode)
        },
        None => Err(ErrorKind::Decode),
    }
}

/// What a decrypted buffer decodes to: the filler behind the last closing
/// brace is dropped, and what is left is read as UTF-8 text.
pub open spec fn payload_outcome(decrypted: Seq<u8>) -> Result<AccountListModel, ErrorKind> {
    let payload = trimmed(decrypted);
    if payload.len() == 0 {
        Err(ErrorKind::EmptyPayload)
    } else if !valid_utf8(payload) {
        Err(ErrorKind::Encoding)
    } else {
        text_outcome(decode_utf8(payload))
    }
}

/// The text of the document in a decrypted buffer: the bytes up to the last
/// closing brace, where there is one and they are UTF-8.
pub open spec fn payload_text(decrypted: Seq<u8>) -> Option<Seq<char>> {
    let payload = trimmed(decrypted);
    if payload.len() != 0 && valid_utf8(payload) {
        Some(decode_utf8(payload))
    } else {
        None
    }
}

/// What decrypting a container gives: the plaintext under the account key,
/// which is the initialization vector too, without its zero bytes.
pub open spec fn container_plaintext(data: Seq<u8>) -> Seq<u8> {
    without_zero_bytes(aes_cbc_plaintext(ACCOUNT_KEY@, ACCOUNT_KEY@, data))
}

/// The text of the document in a container, where the cipher takes the
/// container and its plaintext holds a text.
pub open spec fn container_text(data: Seq<u8>) -> Option<Seq<char>> {
    if data.len() % (BLOCK_SIZE as nat) != 0 {
        None
    } else {
        payload_text(container_plaintext(data))
    }
}

/// What a container decodes to: it is decrypted with the account key and
/// loses its zero bytes, and what is left is decoded as a decrypted buffer.
pub open spec fn container_outcome(data: Seq<u8>) -> Result<AccountListModel, ErrorKind> {
    if data.len() % (BLOCK_SIZE as nat) != 0 {
        Err(ErrorKind::Decrypt)
    } else {
        payload_outcome(container_plaintext(data))
    }
}

/// Whether `r` carries the cause that decoding `text` gives: a syntax error
/// exactly where there is a text and it is no JSON document, and a fault of
/// shape only where there is a text, it is a JSON document and the document
/// has that fault.
pub open spec fn carries_cause(r: Result<JdAccountList, JdError>, text: Option<Seq<char>>) -> bool {
    &&& (r matches Err(JdError::Decode(DecodeCause::Syntax(_)))) <==> (text matches Some(text)
        && json_document(text) is None)
    &&& r matches Err(JdError::Decode(DecodeCause::Shape(fault))) ==> (text matches Some(text)
        && json_document(text) matches Some(document) && document_has_fault(document, fault))
}

/// Decodes an account list from the text of its JSON document.
///
/// Fails with [`JdError::Decode`]: for a syntax error exactly when the text
/// is no JSON document, else for a fault that the document has.
pub fn decode_text(text: &str) -> (r: Result<JdAccountList, JdError>)
    ensures
        outcome(r) == text_outcome(text@),
        carries_cause(r, Some(text@)),
{
    let document = match parse_json(text) {
        Ok(document) => document,
        Err(e) => {
            return Err(JdError::Decode(DecodeCause::Syntax(e)));
        },
    };
    match decode_document(&document) {
        Ok(list) => Ok(list),
        Err(fault) => Err(JdError::Decode(DecodeCause::Shape(fault))),
    }
}

/// Decodes an account list from a decrypted buffer.
///
/// Fails with [`JdError::EmptyPayload`] exactly when the buffer holds no
/// closing brace, else with [`JdError::Encoding`] exactly when the bytes up to
/// the last closing brace are not UTF-8, else as [`decode_text`] does.
pub fn decode_payload(decrypted: Vec<u8>) -> (r: Result<JdAccountList, JdError>)
    ensures
        outcome(r) == payload_outcome(decrypted@),
        carries_cause(r, payload_text(decrypted@)),
{
    proof {
        lemma_trimmed_ends_in_brace(decrypted@);
    }
    let payload = trim_payload(decrypted)?;
    let text = match std::str::from_utf8(payload.as_slice()) {
        Ok(text) => text,
        Err(e) => {
            return Err(JdError::Encoding(e));
        },
    };
    decode_text(text)
}

impl JdAccountList {
    /// Decodes the content of an account-list container.
    ///
    /// The first stage that fails ends the decode: [`JdError::Decrypt`] when
    /// the length of `data` is no multiple of the block size, then
    /// [`JdError::EmptyPayload`], [`JdError::Encoding`] and
    /// [`JdError::Decode`] as [`decode_payload`] gives them, with the cause
    /// that [`decode_text`] gives for the text of the document. An empty
    /// container holds no document.
    pub fn from_data(data: &[u8]) -> (r: Result<JdAccountList, JdError>)
        ensures
            outcome(r) == container_outcome(data@),
            carries_cause(r, container_text(data@)),
            data@.len() == 0 ==> r matches Err(JdError::EmptyPayload),
    {
        let decrypted = decrypt_raw_data(data, ACCOUNT_KEY.as_slice(), ACCOUNT_KEY.as_slice())?;
        proof {
            if data@.len() == 0 {
                reveal(Seq::filter);
                assert(decrypted@.len() == 0);
            }
        }
        decode_payload(decrypted)
    }
}

/// A container decodes to one outcome: two decodes of the same bytes give
/// equal account lists, or fail at the same stage.
pub proof fn lemma_decoding_is_determined(
    data: Seq<u8>,
    first: Result<JdAccountList, JdError>,
    second: Result<JdAccountList, JdError>,
)
    requires
        outcome(first) == container_outcome(data),
        outcome(second) == container_outcome(data),
    ensures
        outcome(first) == outcome(second),
        first is Ok <==> second is Ok,
        first matches Ok(a) ==> (second matches Ok(b) ==> a@ == b@),
        first matches Err(a) ==> (second matches Err(b) ==> a.kind_of() == b.kind_of()),
{
}

/// A decrypted buffer without a closing brace holds no document, whatever
/// else it holds.
pub proof fn lemma_no_brace_no_document(decrypted: Seq<u8>)
    requires
        !has_closing_brace(decrypted),
    ensures
        payload_outcome(decrypted) == Err::<AccountListModel, ErrorKind>(ErrorKind::EmptyPayload),
{
    lemma_trimmed_ends_in_brace(decrypted);
}

} // verus!
