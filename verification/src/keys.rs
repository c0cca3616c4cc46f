//! The fixed keys of the container formats.
//!
//! Each format has its own 128-bit key, which also serves as the
//! initialization vector. Only [`ACCOUNT_KEY`] is used by this library; the
//! others are listed for the formats that it does not decode.

use vstd::prelude::*;

verus! {

/// The key of account-list containers.
pub const ACCOUNT_KEY: [u8; 16] = [1, 6, 4, 5, 2, 7, 4, 3, 12, 61, 14, 75, 254, 249, 212, 33];

/// The key of authentication settings. Not used.
pub const AUTHENTICATION_KEY: [u8; 16] = [2, 4, 4, 5, 2, 7, 4, 3, 12, 61, 14, 75, 254, 249, 212, 33];

/// The key of proxy settings. Not used.
pub const PROXY_KEY: [u8; 16] = [1, 3, 17, 1, 1, 84, 1, 1, 1, 2, 193, 1, 17, 1, 34, 244];

/// The key of crawler settings. Not used.
pub const CRAWLER_KEY: [u8; 16] = [1, 3, 17, 1, 1, 84, 1, 1, 1, 1, 18, 1, 1, 1, 34, 1];

/// The key of configuration storage. Not used.
pub const CONFIG_KEY: [u8; 16] = [1, 2, 17, 1, 1, 84, 1, 1, 1, 1, 18, 1, 1, 1, 34, 1];

/// The key of file-chooser settings. Not used.
pub const FILE_KEY: [u8; 16] = [0, 2, 17, 1, 1, 84, 2, 1, 1, 1, 18, 1, 1, 1, 18, 1];

/// The key of stored download links. Not used.
pub const DOWNLOAD_LINK_KEY: [u8; 16] = [0, 1, 2, 3, 4, 5, 6, 7, 8, 9, 10, 11, 12, 13, 14, 15];

} // verus!
