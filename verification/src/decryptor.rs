//! The block decryptor: AES-CBC without padding, streamed through a bounded
//! buffer, followed by the removal of every zero byte.
//!
//! The software implementation of AES is used on every machine, so that the
//! same container decodes alike everywhere.

use crate::cbc::{
    aes_cbc_plaintext, cbc_128, cbc_128_decrypt, cbc_192, cbc_192_decrypt, cbc_256,
    cbc_256_decrypt, rejects_128, rejects_192, rejects_256, unwritten_128, unwritten_192,
    unwritten_256, whole_128, whole_192, whole_256, Aes128Cbc, Aes192Cbc, Aes256Cbc, BLOCK_SIZE,
};
use crate::error::JdError;
use vstd::prelude::*;

verus! {

/// The size of the buffer through which the plaintext is taken, in bytes.
pub const BUFFER_SIZE: usize = 4096;

/// The key sizes of AES.
#[derive(Clone, Copy, Debug, PartialEq, Eq, Structural)]
pub enum KeySize {
    KeySize128,
    KeySize192,
    KeySize256,
}

impl KeySize {
    /// The length of a key of this size, in bytes.
    pub open spec fn key_len_of(self) -> usize {
        match self {
            KeySize::KeySize128 => 16,
            KeySize::KeySize192 => 24,
            KeySize::KeySize256 => 32,
        }
    }

    /// The length of a key of this size, in bytes.
    #[verifier::when_used_as_spec(key_len_of)]
    pub fn key_len(self) -> (len: usize)
        ensures
            len == self.key_len_of(),
    {
        match self {
            KeySize::KeySize128 => 16,
            KeySize::KeySize192 => 24,
            KeySize::KeySize256 => 32,
        }
    }
}

/// An AES-CBC decryptor without padding, for one of the three key sizes.
pub enum AesCbcDecryptor {
    Aes128(Aes128Cbc),
    Aes192(Aes192Cbc),
    Aes256(Aes256Cbc),
}

impl AesCbcDecryptor {
    /// The key size that this decryptor was made for.
    pub open spec fn key_size_of(&self) -> KeySize {
        match *self {
            AesCbcDecryptor::Aes128(_) => KeySize::KeySize128,
            AesCbcDecryptor::Aes192(_) => KeySize::KeySize192,
            AesCbcDecryptor::Aes256(_) => KeySize::KeySize256,
        }
    }

    /// Whether this decryptor works on whole blocks, as every decryptor does
    /// that [`aes_cbc_decryptor`] made and [`AesCbcDecryptor::decrypt`] drove.
    pub open spec fn is_whole(&self) -> bool {
        match *self {
            AesCbcDecryptor::Aes128(d) => whole_128(d),
            AesCbcDecryptor::Aes192(d) => whole_192(d),
            AesCbcDecryptor::Aes256(d) => whole_256(d),
        }
    }

    /// Everything that this decryptor has still to write when `rest` is the
    /// ciphertext still to be handed to it.
    pub open spec fn unwritten(&self, rest: Seq<u8>) -> Seq<u8> {
        match *self {
            AesCbcDecryptor::Aes128(d) => unwritten_128(d, rest),
            AesCbcDecryptor::Aes192(d) => unwritten_192(d, rest),
            AesCbcDecryptor::Aes256(d) => unwritten_256(d, rest),
        }
    }

    /// Whether this decryptor ends by reporting an error when `rest` is the
    /// ciphertext still to be handed to it.
    pub open spec fn rejects(&self, rest: Seq<u8>) -> bool {
        match *self {
            AesCbcDecryptor::Aes128(d) => rejects_128(d, rest),
            AesCbcDecryptor::Aes192(d) => rejects_192(d, rest),
            AesCbcDecryptor::Aes256(d) => rejects_256(d, rest),
        }
    }

    /// Whether this decryptor is as it was made for `key` and `iv`: it
    /// rejects the ciphertexts that are no whole number of blocks, and has the
    /// whole plaintext of every other ciphertext to write.
    pub open spec fn is_fresh(&self, key: Seq<u8>, iv: Seq<u8>) -> bool {
        &&& forall|data: Seq<u8>| #[trigger]
            self.rejects(data) == (data.len() % (BLOCK_SIZE as nat) != 0)
        &&& forall|data: Seq<u8>|
            data.len() % (BLOCK_SIZE as nat) == 0 ==> #[trigger] self.unwritten(data)
                == aes_cbc_plaintext(key, iv, data)
        &&& forall|data: Seq<u8>|
            data.len() % (BLOCK_SIZE as nat) == 0 ==> (#[trigger] self.unwritten(data)).len()
                == data.len()
    }

    /// The key size that this decryptor was made for.
    #[verifier::when_used_as_spec(key_size_of)]
    pub fn key_size(&self) -> (size: KeySize)
        ensures
            size == self.key_size_of(),
    {
        match self {
            AesCbcDecryptor::Aes128(_) => KeySize::KeySize128,
            AesCbcDecryptor::Aes192(_) => KeySize::KeySize192,
            AesCbcDecryptor::Aes256(_) => KeySize::KeySize256,
        }
    }

    /// Decrypts as much of `data` from `from` on as fits into `out`.
    ///
    /// The decryptor is one that [`aes_cbc_decryptor`] made. `data` from
    /// `from` on is all the ciphertext that is still to come.
    /// Returns how many bytes of it were read and how many bytes were written
    /// to the front of `out`. What was written is the next part of what the
    /// decryptor had to write; nothing is written only when nothing is left.
    /// Fails with [`JdError::Decrypt`] only on a ciphertext that the
    /// decryptor rejects.
    pub fn decrypt(&mut self, data: &[u8], from: usize, out: &mut Vec<u8>) -> (r: Result<
        (usize, usize),
        JdError,
    >)
        requires
            old(self).is_whole(),
            from <= data@.len(),
            old(out)@.len() >= BLOCK_SIZE,
        ensures
            final(self).is_whole(),
            final(out)@.len() == old(out)@.len(),
            final(self).key_size_of() == old(self).key_size_of(),
            match r {
                Ok((read, written)) => {
                    &&& from + read <= data@.len()
                    &&& written <= final(out)@.len()
                    &&& old(self).unwritten(data@.skip(from as int)) == final(out)@.take(
                        written as int,
                    ) + final(self).unwritten(data@.skip(from + read))
                    &&& final(self).rejects(data@.skip(from + read)) == old(self).rejects(
                        data@.skip(from as int),
                    )
                    &&& written == 0 ==> !old(self).rejects(data@.skip(from as int))
                        && old(self).unwritten(data@.skip(from as int)).len() == 0
                },
                Err(e) => e is Decrypt && old(self).rejects(data@.skip(from as int)),
            },
    {
        let step = match self {
            AesCbcDecryptor::Aes128(d) => cbc_128_decrypt(d, data, from, out),
            AesCbcDecryptor::Aes192(d) => cbc_192_decrypt(d, data, from, out),
            AesCbcDecryptor::Aes256(d) => cbc_256_decrypt(d, data, from, out),
        };
        match step {
            Ok(counts) => Ok(counts),
            Err(_) => Err(JdError::Decrypt),
        }
    }
}

/// Makes the software AES-CBC decryptor, without padding, for a key of the
/// given size.
pub fn aes_cbc_decryptor(key_size: KeySize, key: &[u8], iv: &[u8]) -> (decryptor: AesCbcDecryptor)
    requires
        key@.len() == key_size.key_len_of(),
        iv@.len() == BLOCK_SIZE,
    ensures
        decryptor.key_size_of() == key_size,
        decryptor.is_whole(),
        decryptor.is_fresh(key@, iv@),
{
    match key_size {
        KeySize::KeySize128 => AesCbcDecryptor::Aes128(cbc_128(key, iv)),
        KeySize::KeySize192 => AesCbcDecryptor::Aes192(cbc_192(key, iv)),
        KeySize::KeySize256 => AesCbcDecryptor::Aes256(cbc_256(key, iv)),
    }
}

/// Whether a byte is kept when the filler is removed: every byte but zero.
pub open spec fn is_kept() -> spec_fn(u8) -> bool {
    |byte: u8| byte != 0
}

/// `bytes` without its zero bytes, wherever they stand.
pub open spec fn without_zero_bytes(bytes: Seq<u8>) -> Seq<u8> {
    bytes.filter(is_kept())
}

/// Removing the zero bytes leaves no zero byte.
pub proof fn lemma_no_zero_byte_is_left(bytes: Seq<u8>)
    ensures
        forall|i: int|
            0 <= i < without_zero_bytes(bytes).len() ==> #[trigger] without_zero_bytes(bytes)[i]
                != 0,
{
    assert forall|i: int| 0 <= i < without_zero_bytes(bytes).len() implies #[trigger]
        without_zero_bytes(bytes)[i] != 0 by {
        bytes.lemma_filter_pred(is_kept(), i);
    }
}

/// A plaintext without zero bytes comes through unchanged: only for such a
/// plaintext does decrypting give back exactly what was encrypted.
pub proof fn lemma_zero_free_is_kept(bytes: Seq<u8>)
    requires
        forall|i: int| 0 <= i < bytes.len() ==> bytes[i] != 0,
    ensures
        without_zero_bytes(bytes) == bytes,
    decreases bytes.len(),
{
    reveal(Seq::filter);
    if bytes.len() > 0 {
        lemma_zero_free_is_kept(bytes.drop_last());
        assert(bytes.drop_last().push(bytes.last()) == bytes);
    }
}

/// Removing the zero bytes a second time changes nothing.
pub proof fn lemma_stripping_twice_is_stripping_once(bytes: Seq<u8>)
    ensures
        without_zero_bytes(without_zero_bytes(bytes)) == without_zero_bytes(bytes),
{
    lemma_no_zero_byte_is_left(bytes);
    lemma_zero_free_is_kept(without_zero_bytes(bytes));
}

/// Removes every zero byte, the filler of the format, at any position.
///
/// A zero byte inside the document is removed like any other.
pub fn strip_zero_bytes(data: &Vec<u8>) -> (kept: Vec<u8>)
    ensures
        kept@ == without_zero_bytes(data@),
{
    let mut kept: Vec<u8> = Vec::new();
    let mut i: usize = 0;
    proof {
        reveal(Seq::filter);
    }
    while i < data.len()
        invariant
            i <= data@.len(),
            kept@ == without_zero_bytes(data@.take(i as int)),
        decreases data@.len() - i,
    {
        proof {
            assert(data@.take(i + 1) == data@.take(i as int).push(data@[i as int]));
            data@.take(i as int).lemma_filter_push(data@[i as int], is_kept());
        }
        if data[i] != 0 {
            kept.push(data[i]);
        }
        i = i + 1;
    }
    proof {
        assert(data@.take(i as int) == data@);
    }
    kept
}

/// Decrypts a container: AES-128 in CBC mode without padding, then the
/// removal of every zero byte.
///
/// The ciphertext is taken through a buffer of [`BUFFER_SIZE`] bytes: each
/// round decrypts as much as fits and appends it to the plaintext, until a
/// round gives nothing more.
///
/// Fails with [`JdError::Decrypt`] exactly when the length of `data` is no
/// multiple of the block size.
pub fn decrypt_raw_data(data: &[u8], key: &[u8], iv: &[u8]) -> (r: Result<Vec<u8>, JdError>)
    requires
        key@.len() == KeySize::KeySize128.key_len_of(),
        iv@.len() == BLOCK_SIZE,
    ensures
        match r {
            Ok(plain) => {
                &&& data@.len() % (BLOCK_SIZE as nat) == 0
                &&& plain@ == without_zero_bytes(aes_cbc_plaintext(key@, iv@, data@))
                &&& aes_cbc_plaintext(key@, iv@, data@).len() == data@.len()
            },
            Err(e) => e is Decrypt && data@.len() % (BLOCK_SIZE as nat) != 0,
        },
{
    let mut decryptor = aes_cbc_decryptor(KeySize::KeySize128, key, iv);
    let mut buffer: Vec<u8> = vec![0u8; BUFFER_SIZE];
    let mut result: Vec<u8> = Vec::new();
    let mut from: usize = 0;
    let length = data.len();
    let ghost plaintext = decryptor.unwritten(data@);
    proof {
        assert(data@.skip(0) == data@);
    }
    loop
        invariant_except_break
            decryptor.is_whole(),
            length == data@.len(),
            from <= length,
            buffer@.len() == BUFFER_SIZE,
            plaintext == result@ + decryptor.unwritten(data@.skip(from as int)),
            decryptor.rejects(data@.skip(from as int)) == (data@.len() % (BLOCK_SIZE as nat) != 0),
        ensures
            plaintext == result@,
            data@.len() % (BLOCK_SIZE as nat) == 0,
        decreases decryptor.unwritten(data@.skip(from as int)).len(),
    {
        let (read, written) = match decryptor.decrypt(data, from, &mut buffer) {
            Ok(counts) => counts,
            Err(e) => {
                return Err(e);
            },
        };
        if written == 0 {
            break;
        }
        result.extend_from_slice(vstd::slice::slice_subrange(buffer.as_slice(), 0, written));
        from = from + read;
    }
    Ok(strip_zero_bytes(&result))
}

} // verus!
