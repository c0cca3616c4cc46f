//! Recovery of the JSON document from a decrypted buffer.
//!
//! The document is followed by filler. Its end is taken to be the last closing
//! brace of the buffer: everything behind that brace is dropped, and a buffer
//! without any brace holds no document.

use crate::error::JdError;
use vstd::prelude::*;

verus! {

/// The ASCII closing brace, which ends every document.
pub const CLOSING_BRACE: u8 = 0x7D;

/// Whether `bytes` holds a closing brace anywhere.
pub open spec fn has_closing_brace(bytes: Seq<u8>) -> bool {
    exists|i: int| 0 <= i < bytes.len() && bytes[i] == CLOSING_BRACE
}

/// `bytes` without its last bytes, as far back as the last closing brace: the
/// last byte is removed as long as there is one and it is not a closing brace.
pub open spec fn trimmed(bytes: Seq<u8>) -> Seq<u8>
    decreases bytes.len(),
{
    if bytes.len() == 0 || bytes.last() == CLOSING_BRACE {
        bytes
    } else {
        trimmed(bytes.drop_last())
    }
}

/// What trimming leaves is a prefix of the buffer, and nothing behind it is a
/// closing brace.
pub proof fn lemma_trimmed_is_prefix(bytes: Seq<u8>)
    ensures
        trimmed(bytes).len() <= bytes.len(),
        trimmed(bytes) == bytes.take(trimmed(bytes).len() as int),
        forall|i: int| trimmed(bytes).len() <= i < bytes.len() ==> bytes[i] != CLOSING_BRACE,
    decreases bytes.len(),
{
    if bytes.len() == 0 || bytes.last() == CLOSING_BRACE {
        assert(bytes.take(bytes.len() as int) == bytes);
    } else {
        let shorter = bytes.drop_last();
        lemma_trimmed_is_prefix(shorter);
        let n = trimmed(shorter).len() as int;
        assert(shorter.take(n) == bytes.take(n));
        assert forall|i: int| n <= i < bytes.len() implies bytes[i] != CLOSING_BRACE by {
            if i < shorter.len() {
                assert(shorter[i] != CLOSING_BRACE);
            }
        }
    }
}

/// Trimming leaves nothing exactly when the buffer has no closing brace, and
/// otherwise leaves a buffer that ends in one.
pub proof fn lemma_trimmed_ends_in_brace(bytes: Seq<u8>)
    ensures
        trimmed(bytes).len() == 0 <==> !has_closing_brace(bytes),
        trimmed(bytes).len() > 0 ==> trimmed(bytes).last() == CLOSING_BRACE,
    decreases bytes.len(),
{
    if bytes.len() == 0 {
    } else if bytes.last() == CLOSING_BRACE {
        assert(bytes[bytes.len() - 1] == CLOSING_BRACE);
    } else {
        let shorter = bytes.drop_last();
        lemma_trimmed_ends_in_brace(shorter);
        if has_closing_brace(bytes) {
            let i = choose|i: int| 0 <= i < bytes.len() && bytes[i] == CLOSING_BRACE;
            assert(shorter[i] == CLOSING_BRACE);
        }
        if has_closing_brace(shorter) {
            let i = choose|i: int| 0 <= i < shorter.len() && shorter[i] == CLOSING_BRACE;
            assert(bytes[i] == CLOSING_BRACE);
        }
    }
}

/// The document's bytes are the only prefix of the buffer that ends in a
/// closing brace and has no closing brace behind it.
pub proof fn lemma_payload_is_unique(bytes: Seq<u8>, prefix: Seq<u8>)
    requires
        0 < prefix.len() <= bytes.len(),
        prefix == bytes.take(prefix.len() as int),
        prefix.last() == CLOSING_BRACE,
        forall|i: int| prefix.len() <= i < bytes.len() ==> bytes[i] != CLOSING_BRACE,
    ensures
        trimmed(bytes) == prefix,
    decreases bytes.len(),
{
    if bytes.len() == prefix.len() {
        assert(bytes.take(bytes.len() as int) == bytes);
    } else {
        let shorter = bytes.drop_last();
        assert(shorter.take(prefix.len() as int) == bytes.take(prefix.len() as int));
        lemma_payload_is_unique(shorter, prefix);
    }
}

/// Removes the filler behind the document.
///
/// Fails with [`JdError::EmptyPayload`] exactly when the buffer holds no closing
/// brace, an empty buffer included.
pub fn trim_payload(data: Vec<u8>) -> (r: Result<Vec<u8>, JdError>)
    ensures
        match r {
            Ok(payload) => payload@ == trimmed(data@) && has_closing_brace(data@),
            Err(e) => e is EmptyPayload && !has_closing_brace(data@),
        },
{
    let mut rest = data;
    loop
        invariant
            trimmed(rest@) == trimmed(data@),
        decreases rest@.len(),
    {
        if rest.len() == 0 {
            proof {
                lemma_trimmed_ends_in_brace(data@);
            }
            return Err(JdError::EmptyPayload);
        }
        if rest[rest.len() - 1] == CLOSING_BRACE {
            proof {
                lemma_trimmed_ends_in_brace(data@);
            }
            return Ok(rest);
        }
        rest.pop();
    }
}

} // verus!
