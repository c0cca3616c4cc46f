//! The AES-CBC decryptors of the `crypto` crate, as far as this library uses them.
//!
//! Nothing in this file is proved. The types are opaque; the functions carry
//! the contracts under which the rest of the library drives the decryptors of
//! `crypto::blockmodes` over the software AES of `crypto::aessafe`.
//!
//! A decryptor is a stream: it takes ciphertext in and gives plaintext out, a
//! buffer at a time. The contracts speak of a decryptor by what it has still
//! to give. For a decryptor `d` and the ciphertext `rest` that is still to be
//! handed to it, by calls that say that `rest` is all there is and that bring
//! room for at least one block each:
//!
//! - `unwritten_*(d, rest)` is everything that `d` writes from now on,
//! - `rejects_*(d, rest)` says that `d` ends by reporting an error.
//!
//! This is believed only of a decryptor that works on whole blocks,
//! `whole_*(d)`: one that a function of this file made, and that has been
//! driven by the functions of this file alone.

use crypto::aessafe::{AesSafe128Decryptor, AesSafe192Decryptor, AesSafe256Decryptor};
use crypto::blockmodes::{CbcDecryptor, DecPadding, NoPadding};
use crypto::buffer::{ReadBuffer, RefReadBuffer, RefWriteBuffer, WriteBuffer};
use crypto::symmetriccipher::{Decryptor, SymmetricCipherError};
use vstd::prelude::*;

verus! {

/// `crypto::aessafe::AesSafe128Decryptor`, the software AES block cipher for
/// 128-bit keys. Opaque.
#[verifier::external_type_specification]
#[verifier::external_body]
pub struct ExAesSafe128Decryptor(AesSafe128Decryptor);

/// `crypto::aessafe::AesSafe192Decryptor`, the software AES block cipher for
/// 192-bit keys. Opaque.
#[verifier::external_type_specification]
#[verifier::external_body]
pub struct ExAesSafe192Decryptor(AesSafe192Decryptor);

/// `crypto::aessafe::AesSafe256Decryptor`, the software AES block cipher for
/// 256-bit keys. Opaque.
#[verifier::external_type_specification]
#[verifier::external_body]
pub struct ExAesSafe256Decryptor(AesSafe256Decryptor);

/// `crypto::blockmodes::NoPadding`, the padding mode that adds and removes
/// nothing. Opaque.
#[verifier::external_type_specification]
#[verifier::external_body]
pub struct ExNoPadding(NoPadding);

/// `crypto::blockmodes::DecPadding`, the padding mode as a decryptor holds it.
/// Opaque.
#[verifier::external_type_specification]
#[verifier::external_body]
#[verifier::reject_recursive_types(X)]
pub struct ExDecPadding<X>(DecPadding<X>);

/// `crypto::blockmodes::CbcDecryptor`, the streaming CBC decryptor. Opaque:
/// what it has still to write is named by the functions below.
#[verifier::external_type_specification]
#[verifier::external_body]
#[verifier::reject_recursive_types(T)]
#[verifier::reject_recursive_types(X)]
pub struct ExCbcDecryptor<T, X>(CbcDecryptor<T, X>);

/// `crypto::symmetriccipher::SymmetricCipherError`, the error of a
/// decryptor. Opaque.
#[verifier::external_type_specification]
#[verifier::external_body]
pub struct ExSymmetricCipherError(SymmetricCipherError);

/// The size of an AES block, and of the initialization vector, in bytes.
pub const BLOCK_SIZE: usize = 16;

/// A CBC decryptor over software AES with a 128-bit key, without padding.
pub type Aes128Cbc = CbcDecryptor<AesSafe128Decryptor, DecPadding<NoPadding>>;

/// A CBC decryptor over software AES with a 192-bit key, without padding.
pub type Aes192Cbc = CbcDecryptor<AesSafe192Decryptor, DecPadding<NoPadding>>;

/// A CBC decryptor over software AES with a 256-bit key, without padding.
pub type Aes256Cbc = CbcDecryptor<AesSafe256Decryptor, DecPadding<NoPadding>>;

/// The plaintext that AES in CBC mode, without padding, gives for
/// `ciphertext` under `key` and `iv`: what a decryptor made by
/// `CbcDecryptor::new` writes in all. The length of `key` selects the cipher.
pub uninterp spec fn aes_cbc_plaintext(key: Seq<u8>, iv: Seq<u8>, ciphertext: Seq<u8>) -> Seq<u8>;

/// Whether `decryptor` works on whole blocks: it chains over one block, as
/// `CbcDecryptor::new` leaves it for a vector of a block's length, and
/// whatever it was handed since, it was handed as all the input there is.
/// Only of such a decryptor is anything else believed.
pub uninterp spec fn whole_128(decryptor: Aes128Cbc) -> bool;

/// Everything that `decryptor` has still to write when `rest` is the
/// ciphertext still to be handed to `Decryptor::decrypt`.
pub uninterp spec fn unwritten_128(decryptor: Aes128Cbc, rest: Seq<u8>) -> Seq<u8>;

/// Whether `decryptor` ends by reporting an error when `rest` is the
/// ciphertext still to be handed to `Decryptor::decrypt`.
pub uninterp spec fn rejects_128(decryptor: Aes128Cbc, rest: Seq<u8>) -> bool;

/// Calls `AesSafe128Decryptor::new` and `CbcDecryptor::new` with `NoPadding`.
///
/// Believed of the new decryptor: it works on whole blocks; it rejects
/// exactly the ciphertexts whose length is no multiple of the block size; for
/// every other ciphertext it has the whole plaintext to write, which is as
/// long as the ciphertext.
///
/// The key schedule panics on a key of another length, and the block engine
/// rewinds by the length of `iv`: both lengths are required.
#[verifier::external_body]
pub(crate) fn cbc_128(key: &[u8], iv: &[u8]) -> (decryptor: Aes128Cbc)
    requires
        key@.len() == 16,
        iv@.len() == BLOCK_SIZE,
    ensures
        whole_128(decryptor),
        forall|data: Seq<u8>| #[trigger]
            rejects_128(decryptor, data) == (data.len() % (BLOCK_SIZE as nat) != 0),
        forall|data: Seq<u8>|
            data.len() % (BLOCK_SIZE as nat) == 0 ==> #[trigger] unwritten_128(decryptor, data)
                == aes_cbc_plaintext(key@, iv@, data),
        forall|data: Seq<u8>|
            data.len() % (BLOCK_SIZE as nat) == 0 ==> (#[trigger] unwritten_128(
                decryptor,
                data,
            )).len() == data.len(),
{
    CbcDecryptor::new(AesSafe128Decryptor::new(key), NoPadding, iv.to_vec())
}

/// Calls `Decryptor::decrypt` once, on `data` from `from` on as all the input
/// there is, with `out` as the room to write to.
///
/// The decryptor must work on whole blocks, and does so afterwards: on one
/// made with a longer vector the block engine rewinds too far and panics, and
/// one made with a shorter vector leaves part of each block unwritten.
///
/// Returns how many bytes were read from `data` and how many were written to
/// the front of `out`. Believed of a call that succeeds: what it wrote is the
/// next part of what the decryptor had to write, and the rest is still to
/// come; whether the decryptor will end in an error has not changed; and it
/// wrote nothing only if nothing was left to write and no error is to come.
/// Believed of a call that fails: the decryptor was bound to.
#[verifier::external_body]
pub(crate) fn cbc_128_decrypt(
    decryptor: &mut Aes128Cbc,
    data: &[u8],
    from: usize,
    out: &mut Vec<u8>,
) -> (r: Result<(usize, usize), SymmetricCipherError>)
    requires
        whole_128(*old(decryptor)),
        from <= data@.len(),
        old(out)@.len() >= BLOCK_SIZE,
    ensures
        whole_128(*final(decryptor)),
        final(out)@.len() == old(out)@.len(),
        match r {
            Ok((read, written)) => {
                &&& from + read <= data@.len()
                &&& written <= final(out)@.len()
                &&& unwritten_128(*old(decryptor), data@.skip(from as int)) == final(out)@.take(
                    written as int,
                ) + unwritten_128(*final(decryptor), data@.skip(from + read))
                &&& rejects_128(*final(decryptor), data@.skip(from + read)) == rejects_128(
                    *old(decryptor),
                    data@.skip(from as int),
                )
                &&& written == 0 ==> !rejects_128(*old(decryptor), data@.skip(from as int))
                    && unwritten_128(*old(decryptor), data@.skip(from as int)).len() == 0
            },
            Err(_) => rejects_128(*old(decryptor), data@.skip(from as int)),
        },
{
    let mut input = RefReadBuffer::new(&data[from..]);
    let mut output = RefWriteBuffer::new(out);
    match decryptor.decrypt(&mut input, &mut output, true) {
        Ok(_) => Ok((input.position(), output.position())),
        Err(e) => Err(e),
    }
}

/// Whether `decryptor` works on whole blocks: it chains over one block, as
/// `CbcDecryptor::new` leaves it for a vector of a block's length, and
/// whatever it was handed since, it was handed as all the input there is.
/// Only of such a decryptor is anything else believed.
pub uninterp spec fn whole_192(decryptor: Aes192Cbc) -> bool;

/// Everything that `decryptor` has still to write when `rest` is the
/// ciphertext still to be handed to `Decryptor::decrypt`.
pub uninterp spec fn unwritten_192(decryptor: Aes192Cbc, rest: Seq<u8>) -> Seq<u8>;

/// Whether `decryptor` ends by reporting an error when `rest` is the
/// ciphertext still to be handed to `Decryptor::decrypt`.
pub uninterp spec fn rejects_192(decryptor: Aes192Cbc, rest: Seq<u8>) -> bool;

/// Calls `AesSafe192Decryptor::new` and `CbcDecryptor::new` with `NoPadding`.
///
/// Believed of the new decryptor: it works on whole blocks; it rejects
/// exactly the ciphertexts whose length is no multiple of the block size; for
/// every other ciphertext it has the whole plaintext to write, which is as
/// long as the ciphertext.
///
/// The key schedule panics on a key of another length, and the block engine
/// rewinds by the length of `iv`: both lengths are required.
#[verifier::external_body]
pub(crate) fn cbc_192(key: &[u8], iv: &[u8]) -> (decryptor: Aes192Cbc)
    requires
        key@.len() == 24,
        iv@.len() == BLOCK_SIZE,
    ensures
        whole_192(decryptor),
        forall|data: Seq<u8>| #[trigger]
            rejects_192(decryptor, data) == (data.len() % (BLOCK_SIZE as nat) != 0),
        forall|data: Seq<u8>|
            data.len() % (BLOCK_SIZE as nat) == 0 ==> #[trigger] unwritten_192(decryptor, data)
                == aes_cbc_plaintext(key@, iv@, data),
        forall|data: Seq<u8>|
            data.len() % (BLOCK_SIZE as nat) == 0 ==> (#[trigger] unwritten_192(
                decryptor,
                data,
            )).len() == data.len(),
{
    CbcDecryptor::new(AesSafe192Decryptor::new(key), NoPadding, iv.to_vec())
}

/// Calls `Decryptor::decrypt` once, on `data` from `from` on as all the input
/// there is, with `out` as the room to write to.
///
/// The decryptor must work on whole blocks, and does so afterwards: on one
/// made with a longer vector the block engine rewinds too far and panics, and
/// one made with a shorter vector leaves part of each block unwritten.
///
/// Returns how many bytes were read from `data` and how many were written to
/// the front of `out`. Believed of a call that succeeds: what it wrote is the
/// next part of what the decryptor had to write, and the rest is still to
/// come; whether the decryptor will end in an error has not changed; and it
/// wrote nothing only if nothing was left to write and no error is to come.
/// Believed of a call that fails: the decryptor was bound to.
#[verifier::external_body]
pub(crate) fn cbc_192_decrypt(
    decryptor: &mut Aes192Cbc,
    data: &[u8],
    from: usize,
    out: &mut Vec<u8>,
) -> (r: Result<(usize, usize), SymmetricCipherError>)
    requires
        whole_192(*old(decryptor)),
        from <= data@.len(),
        old(out)@.len() >= BLOCK_SIZE,
    ensures
        whole_192(*final(decryptor)),
        final(out)@.len() == old(out)@.len(),
        match r {
            Ok((read, written)) => {
                &&& from + read <= data@.len()
                &&& written <= final(out)@.len()
                &&& unwritten_192(*old(decryptor), data@.skip(from as int)) == final(out)@.take(
                    written as int,
                ) + unwritten_192(*final(decryptor), data@.skip(from + read))
                &&& rejects_192(*final(decryptor), data@.skip(from + read)) == rejects_192(
                    *old(decryptor),
                    data@.skip(from as int),
                )
                &&& written == 0 ==> !rejects_192(*old(decryptor), data@.skip(from as int))
                    && unwritten_192(*old(decryptor), data@.skip(from as int)).len() == 0
            },
            Err(_) => rejects_192(*old(decryptor), data@.skip(from as int)),
        },
{
    let mut input = RefReadBuffer::new(&data[from..]);
    let mut output = RefWriteBuffer::new(out);
    match decryptor.decrypt(&mut input, &mut output, true) {
        Ok(_) => Ok((input.position(), output.position())),
        Err(e) => Err(e),
    }
}

/// Whether `decryptor` works on whole blocks: it chains over one block, as
/// `CbcDecryptor::new` leaves it for a vector of a block's length, and
/// whatever it was handed since, it was handed as all the input there is.
/// Only of such a decryptor is anything else believed.
pub uninterp spec fn whole_256(decryptor: Aes256Cbc) -> bool;

/// Everything that `decryptor` has still to write when `rest` is the
/// ciphertext still to be handed to `Decryptor::decrypt`.
pub uninterp spec fn unwritten_256(decryptor: Aes256Cbc, rest: Seq<u8>) -> Seq<u8>;

/// Whether `decryptor` ends by reporting an error when `rest` is the
/// ciphertext still to be handed to `Decryptor::decrypt`.
pub uninterp spec fn rejects_256(decryptor: Aes256Cbc, rest: Seq<u8>) -> bool;

/// Calls `AesSafe256Decryptor::new` and `CbcDecryptor::new` with `NoPadding`.
///
/// Believed of the new decryptor: it works on whole blocks; it rejects
/// exactly the ciphertexts whose length is no multiple of the block size; for
/// every other ciphertext it has the whole plaintext to write, which is as
/// long as the ciphertext.
///
/// The key schedule panics on a key of another length, and the block engine
/// rewinds by the length of `iv`: both lengths are required.
#[verifier::external_body]
pub(crate) fn cbc_256(key: &[u8], iv: &[u8]) -> (decryptor: Aes256Cbc)
    requires
        key@.len() == 32,
        iv@.len() == BLOCK_SIZE,
    ensures
        whole_256(decryptor),
        forall|data: Seq<u8>| #[trigger]
            rejects_256(decryptor, data) == (data.len() % (BLOCK_SIZE as nat) != 0),
        forall|data: Seq<u8>|
            data.len() % (BLOCK_SIZE as nat) == 0 ==> #[trigger] unwritten_256(decryptor, data)
                == aes_cbc_plaintext(key@, iv@, data),
        forall|data: Seq<u8>|
            data.len() % (BLOCK_SIZE as nat) == 0 ==> (#[trigger] unwritten_256(
                decryptor,
                data,
            )).len() == data.len(),
{
    CbcDecryptor::new(AesSafe256Decryptor::new(key), NoPadding, iv.to_vec())
}

/// Calls `Decryptor::decrypt` once, on `data` from `from` on as all the input
/// there is, with `out` as the room to write to.
///
/// The decryptor must work on whole blocks, and does so afterwards: on one
/// made with a longer vector the block engine rewinds too far and panics, and
/// one made with a shorter vector leaves part of each block unwritten.
///
/// Returns how many bytes were read from `data` and how many were written to
/// the front of `out`. Believed of a call that succeeds: what it wrote is the
/// next part of what the decryptor had to write, and the rest is still to
/// come; whether the decryptor will end in an error has not changed; and it
/// wrote nothing only if nothing was left to write and no error is to come.
/// Believed of a call that fails: the decryptor was bound to.
#[verifier::external_body]
pub(crate) fn cbc_256_decrypt(
    decryptor: &mut Aes256Cbc,
    data: &[u8],
    from: usize,
    out: &mut Vec<u8>,
) -> (r: Result<(usize, usize), SymmetricCipherError>)
    requires
        whole_256(*old(decryptor)),
        from <= data@.len(),
        old(out)@.len() >= BLOCK_SIZE,
    ensures
        whole_256(*final(decryptor)),
        final(out)@.len() == old(out)@.len(),
        match r {
            Ok((read, written)) => {
                &&& from + read <= data@.len()
                &&& written <= final(out)@.len()
                &&& unwritten_256(*old(decryptor), data@.skip(from as int)) == final(out)@.take(
                    written as int,
                ) + unwritten_256(*final(decryptor), data@.skip(from + read))
                &&& rejects_256(*final(decryptor), data@.skip(from + read)) == rejects_256(
                    *old(decryptor),
                    data@.skip(from as int),
                )
                &&& written == 0 ==> !rejects_256(*old(decryptor), data@.skip(from as int))
                    && unwritten_256(*old(decryptor), data@.skip(from as int)).len() == 0
            },
            Err(_) => rejects_256(*old(decryptor), data@.skip(from as int)),
        },
{
    let mut input = RefReadBuffer::new(&data[from..]);
    let mut output = RefWriteBuffer::new(out);
    match decryptor.decrypt(&mut input, &mut output, true) {
        Ok(_) => Ok((input.position(), output.position())),
        Err(e) => Err(e),
    }
}

} // verus!
