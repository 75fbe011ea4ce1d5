//! The record in which the key pair is kept on disk.
//!
//! The keys live in `keys.json` inside the `ring-ring` directory of the
//! user's configuration directory, as a JSON object with the fields
//! `private_key_hex` and `public_key_hex`. Reading and writing the file is
//! left to the caller; this module holds the record itself.

use vstd::prelude::*;

verus! {

/// Name of the application's directory inside the configuration directory.
pub const APP_DIR_NAME: &'static str = "ring-ring";

/// Name of the file that holds the key pair.
pub const KEYS_FILE_NAME: &'static str = "keys.json";

/// The stored key pair, both halves in hex.
pub struct KeyFile {
    pub private_key_hex: String,
    pub public_key_hex: String,
}

impl KeyFile {
    /// The record of a key pair.
    pub fn new(private_hex: &str, public_hex: &str) -> (file: KeyFile)
        ensures
            file.private_key_hex@ == private_hex@,
            file.public_key_hex@ == public_hex@,
    {
        KeyFile { private_key_hex: private_hex.to_owned(), public_key_hex: public_hex.to_owned() }
    }

    /// The key pair a record holds: `(private_hex, public_hex)`.
    pub fn into_pair(self) -> (pair: (String, String))
        ensures
            pair.0@ == self.private_key_hex@,
            pair.1@ == self.public_key_hex@,
    {
        (self.private_key_hex, self.public_key_hex)
    }
}

} // verus!
