use crypto::aessafe::AesSafe128Encryptor;
use crypto::blockmodes::{CbcEncryptor, NoPadding};
use crypto::buffer::{RefReadBuffer, RefWriteBuffer, WriteBuffer};
use crypto::symmetriccipher::Encryptor;
use jd_decrypter::cbc::BLOCK_SIZE;
use jd_decrypter::decryptor::{
    aes_cbc_decryptor, decrypt_raw_data, strip_zero_bytes, AesCbcDecryptor, KeySize, BUFFER_SIZE,
};
use jd_decrypter::error::{ErrorKind, JdError};
use jd_decrypter::keys::ACCOUNT_KEY;

fn from_hex(text: &str) -> Vec<u8> {
    let digits: Vec<u8> = text
        .bytes()
        .map(|c| match c {
            b'0'..=b'9' => c - b'0',
            b'a'..=b'f' => c - b'a' + 10,
            _ => panic!("not a hex digit"),
        })
        .collect();
    digits.chunks(2).map(|pair| pair[0] * 16 + pair[1]).collect()
}

fn encrypt_128(plain: &[u8], key: &[u8], iv: &[u8]) -> Vec<u8> {
    assert_eq!(plain.len() % 16, 0);
    let mut encryptor = CbcEncryptor::new(AesSafe128Encryptor::new(key), NoPadding, iv.to_vec());
    let mut out = vec![0u8; plain.len() + 16];
    let written = {
        let mut input = RefReadBuffer::new(plain);
        let mut output = RefWriteBuffer::new(&mut out);
        encryptor.encrypt(&mut input, &mut output, true).ok().expect("encrypts");
        output.position()
    };
    out.truncate(written);
    out
}

/// Bytes from 1 to 251 in turn: none of them is zero.
fn zero_free(len: usize) -> Vec<u8> {
    (0..len).map(|i| (i % 251) as u8 + 1).collect()
}

fn drain(mut decryptor: AesCbcDecryptor, data: &[u8]) -> Result<Vec<u8>, JdError> {
    let mut out = vec![0u8; 64];
    let mut plain = Vec::new();
    let mut from = 0;
    loop {
        let (read, written) = decryptor.decrypt(data, from, &mut out)?;
        if written == 0 {
            return Ok(plain);
        }
        plain.extend_from_slice(&out[..written]);
        from += read;
    }
}

const NIST_IV: &str = "000102030405060708090a0b0c0d0e0f";
const NIST_PLAIN: &str = "6bc1bee22e409f96e93d7e117393172aae2d8a571e03ac9c9eb76fac45af8e51\
30c81c46a35ce411e5fbc1191a0a52eff69f2445df4f9b17ad2b417be66c3710";

#[test]
fn decrypts_the_standard_vector_for_128_bit_keys() {
    let key = from_hex("2b7e151628aed2a6abf7158809cf4f3c");
    let data = from_hex(
        "7649abac8119b246cee98e9b12e9197d5086cb9b507219ee95db113a917678b2\
73bed6b8e3c1743b7116e69e222295163ff1caa1681fac09120eca307586e1a7",
    );
    let plain = decrypt_raw_data(&data, &key, &from_hex(NIST_IV)).unwrap();
    assert_eq!(plain, from_hex(NIST_PLAIN));
}

#[test]
fn decrypts_one_block() {
    let key = from_hex("2b7e151628aed2a6abf7158809cf4f3c");
    let data = from_hex("7649abac8119b246cee98e9b12e9197d");
    let plain = decrypt_raw_data(&data, &key, &from_hex(NIST_IV)).unwrap();
    assert_eq!(plain, from_hex("6bc1bee22e409f96e93d7e117393172a"));
    assert_ne!(plain, data);
}

#[test]
fn decryptor_for_128_bit_keys_decrypts_the_standard_vector() {
    let key = from_hex("2b7e151628aed2a6abf7158809cf4f3c");
    let data = from_hex(
        "7649abac8119b246cee98e9b12e9197d5086cb9b507219ee95db113a917678b2\
73bed6b8e3c1743b7116e69e222295163ff1caa1681fac09120eca307586e1a7",
    );
    let decryptor = aes_cbc_decryptor(KeySize::KeySize128, &key, &from_hex(NIST_IV));
    assert_eq!(decryptor.key_size(), KeySize::KeySize128);
    assert_eq!(drain(decryptor, &data).unwrap(), from_hex(NIST_PLAIN));
}

#[test]
fn decryptor_for_192_bit_keys_decrypts_the_standard_vector() {
    let key = from_hex("8e73b0f7da0e6452c810f32b809079e562f8ead2522c6b7b");
    let data = from_hex(
        "4f021db243bc633d7178183a9fa071e8b4d9ada9ad7dedf4e5e738763f69145a\
571b242012fb7ae07fa9baac3df102e008b0e27988598881d920a9e64f5615cd",
    );
    let decryptor = aes_cbc_decryptor(KeySize::KeySize192, &key, &from_hex(NIST_IV));
    assert_eq!(decryptor.key_size(), KeySize::KeySize192);
    assert_eq!(drain(decryptor, &data).unwrap(), from_hex(NIST_PLAIN));
}

#[test]
fn decryptor_for_256_bit_keys_decrypts_the_standard_vector() {
    let key = from_hex("603deb1015ca71be2b73aef0857d77811f352c073b6108d72d9810a30914dff4");
    let data = from_hex(
        "f58c4c04d6e5f1ba779eabfb5f7bfbd69cfc4e967edb808d679f777bc6702c7d\
39f23369a9d9bacfa530e26304231461b2eb05e2c39be9fcda6c19078c6a9d1b",
    );
    let decryptor = aes_cbc_decryptor(KeySize::KeySize256, &key, &from_hex(NIST_IV));
    assert_eq!(decryptor.key_size(), KeySize::KeySize256);
    assert_eq!(drain(decryptor, &data).unwrap(), from_hex(NIST_PLAIN));
}

#[test]
fn one_call_reads_and_writes_what_fits() {
    let key = from_hex("2b7e151628aed2a6abf7158809cf4f3c");
    let data = from_hex(
        "7649abac8119b246cee98e9b12e9197d5086cb9b507219ee95db113a917678b2\
73bed6b8e3c1743b7116e69e222295163ff1caa1681fac09120eca307586e1a7",
    );
    let mut decryptor = aes_cbc_decryptor(KeySize::KeySize128, &key, &from_hex(NIST_IV));
    let mut out = vec![0u8; 32];
    let (read, written) = decryptor.decrypt(&data, 0, &mut out).unwrap();
    assert!(read <= data.len());
    assert_eq!(written, 32);
    assert_eq!(out.len(), 32);
    assert_eq!(out, from_hex(NIST_PLAIN)[..32].to_vec());
}

#[test]
fn decryptor_rejects_a_partial_block() {
    let key = from_hex("2b7e151628aed2a6abf7158809cf4f3c");
    let decryptor = aes_cbc_decryptor(KeySize::KeySize128, &key, &from_hex(NIST_IV));
    let failure = drain(decryptor, &[1u8; 20]).unwrap_err();
    assert!(matches!(failure, JdError::Decrypt));
}

#[test]
fn key_lengths_are_16_24_and_32_bytes() {
    assert_eq!(KeySize::KeySize128.key_len(), 16);
    assert_eq!(KeySize::KeySize192.key_len(), 24);
    assert_eq!(KeySize::KeySize256.key_len(), 32);
    assert_eq!(BLOCK_SIZE, 16);
    assert_eq!(BUFFER_SIZE, 4096);
}

#[test]
fn empty_ciphertext_decrypts_to_nothing() {
    let plain = decrypt_raw_data(&[], &ACCOUNT_KEY, &ACCOUNT_KEY).unwrap();
    assert!(plain.is_empty());
}

#[test]
fn misaligned_ciphertext_is_rejected() {
    for len in [1usize, 15, 17, 31, 4095, 4097, 4112 + 1, 8192 + 8] {
        let failure = decrypt_raw_data(&vec![7u8; len], &ACCOUNT_KEY, &ACCOUNT_KEY).unwrap_err();
        assert!(matches!(failure, JdError::Decrypt), "length {}", len);
        assert_eq!(failure.kind(), ErrorKind::Decrypt);
    }
}

#[test]
fn zero_free_plaintext_comes_back_unchanged() {
    for len in [16usize, 32, 4080, 4096, 4112, 8192, 10000, 3 * 4096 + 16] {
        let plain = zero_free(len);
        let data = encrypt_128(&plain, &ACCOUNT_KEY, &ACCOUNT_KEY);
        assert_eq!(data.len(), len);
        let back = decrypt_raw_data(&data, &ACCOUNT_KEY, &ACCOUNT_KEY).unwrap();
        assert_eq!(back, plain, "length {}", len);
    }
}

#[test]
fn plaintext_comes_back_without_its_zero_bytes() {
    let mut plain = zero_free(64);
    plain[0] = 0;
    plain[17] = 0;
    plain[18] = 0;
    plain[63] = 0;
    let data = encrypt_128(&plain, &ACCOUNT_KEY, &ACCOUNT_KEY);
    let back = decrypt_raw_data(&data, &ACCOUNT_KEY, &ACCOUNT_KEY).unwrap();
    let expected: Vec<u8> = plain.iter().copied().filter(|byte| *byte != 0).collect();
    assert_eq!(back.len(), 60);
    assert_eq!(back, expected);
}

#[test]
fn all_zero_plaintext_comes_back_empty() {
    let data = encrypt_128(&[0u8; 48], &ACCOUNT_KEY, &ACCOUNT_KEY);
    let back = decrypt_raw_data(&data, &ACCOUNT_KEY, &ACCOUNT_KEY).unwrap();
    assert!(back.is_empty());
}

#[test]
fn another_key_gives_another_plaintext() {
    let plain = zero_free(32);
    let data = encrypt_128(&plain, &ACCOUNT_KEY, &ACCOUNT_KEY);
    let other = from_hex("2b7e151628aed2a6abf7158809cf4f3c");
    let back = decrypt_raw_data(&data, &other, &ACCOUNT_KEY).unwrap();
    assert_ne!(back, plain);
}

#[test]
fn another_vector_changes_the_first_block_only() {
    let plain = zero_free(48);
    let data = encrypt_128(&plain, &ACCOUNT_KEY, &ACCOUNT_KEY);
    let mut iv = ACCOUNT_KEY;
    iv[0] ^= 0x40;
    let key = from_hex("2b7e151628aed2a6abf7158809cf4f3c");
    let _ = key;
    let back = decrypt_raw_data(&data, &ACCOUNT_KEY, &iv).unwrap();
    assert_eq!(back.len(), 48);
    assert_eq!(back[0], plain[0] ^ 0x40);
    assert_eq!(back[1..], plain[1..]);
}

#[test]
fn strips_zero_bytes_at_any_position() {
    assert_eq!(strip_zero_bytes(&vec![0, 1, 0, 0, 2, 3, 0]), vec![1, 2, 3]);
    assert_eq!(strip_zero_bytes(&vec![1, 2, 3]), vec![1, 2, 3]);
    assert_eq!(strip_zero_bytes(&vec![0, 0]), Vec::<u8>::new());
    assert_eq!(strip_zero_bytes(&Vec::new()), Vec::<u8>::new());
}
