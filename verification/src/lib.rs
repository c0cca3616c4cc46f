//! Decoder for encrypted account-list containers.
//!
//! A container is an AES-128-CBC ciphertext under a fixed key. Its plaintext
//! is a JSON document followed by filler: zero bytes, and whatever else stands
//! behind the last closing brace. The document maps hoster names to lists of
//! accounts.
//!
//! [`JdAccountList::from_data`] decodes a container in four stages, each in a
//! module of its own: [`decryptor`] decrypts and removes the zero bytes,
//! [`payload`] cuts the buffer at its last closing brace, [`text`] reads the
//! bytes as UTF-8, and [`account_list`] with [`account`] decodes the JSON
//! document. [`container`] joins the stages and states what a container
//! decodes to.
//!
//! The cipher and the JSON parser are those of the `crypto` and `serde_json`
//! crates. What the library believes of them stands in [`cbc`], [`json`] and
//! [`text`]; everything else is proved.

pub mod account;
pub mod account_list;
pub mod cbc;
pub mod container;
pub mod decryptor;
pub mod error;
pub mod fields;
pub mod json;
pub mod keys;
pub mod payload;
pub mod text;

pub use account::JdAccount;
pub use account_list::JdAccountList;
pub use error::{DecodeCause, ErrorKind, JdError, ShapeFault};
