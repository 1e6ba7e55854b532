//! Where the mining key is kept between runs, and how what is found there
//! is read.
//!
//! Reading and writing the file is the caller's part. This module holds
//! the two paths and decides what the file's content means.

use crate::text::{trimmed, trimmed_text};
use vstd::prelude::*;

verus! {

/// The name of the application's configuration directory.
pub const APP_NAME: &'static str = "nockpool";

/// The name of the file that holds the key.
pub const KEY_FILENAME: &'static str = "mining_key.txt";

/// The place of the stored key.
#[derive(Debug, Clone)]
pub struct KeyStorage {
    config_dir: String,
    key_file_path: String,
}

/// The key that a file's content holds: the content without the white
/// space around it, if anything is left.
pub open spec fn stored_key(content: Seq<char>) -> Option<Seq<char>> {
    if trimmed(content).len() == 0 {
        None
    } else {
        Some(trimmed(content))
    }
}

/// The key that a read of the key file gives. A file that is missing or
/// cannot be read holds no key.
pub open spec fn loaded_key(read: Option<Seq<char>>) -> Option<Seq<char>> {
    match read {
        Some(content) => stored_key(content),
        None => None,
    }
}

impl KeyStorage {
    /// The directory that holds the key file.
    pub closed spec fn dir(&self) -> Seq<char> {
        self.config_dir@
    }

    /// The path of the key file.
    pub closed spec fn path(&self) -> Seq<char> {
        self.key_file_path@
    }

    /// A storage with the key file at `key_file_path`, inside `config_dir`.
    pub fn at(config_dir: String, key_file_path: String) -> (s: Self)
        ensures
            s.dir() == config_dir@,
            s.path() == key_file_path@,
    {
        KeyStorage { config_dir, key_file_path }
    }

    /// The directory that has to exist before the key can be saved.
    pub fn get_config_dir(&self) -> (dir: &String)
        ensures
            dir@ == self.dir(),
    {
        &self.config_dir
    }

    /// The path of the key file.
    pub fn get_key_file_path(&self) -> (path: &String)
        ensures
            path@ == self.path(),
    {
        &self.key_file_path
    }

    /// The key that a read of the key file gives: `read` is the file's
    /// content, or nothing if the file is missing or could not be read.
    pub fn load_key(read: Option<String>) -> (key: Option<String>)
        ensures
            match key {
                Some(k) => read is Some && loaded_key(Some(read->0@)) == Some(k@),
                None => read is None || loaded_key(Some(read->0@)) is None,
            },
    {
        match read {
            Some(content) => {
                let key = trimmed_text(content.as_str());
                if key.as_str().is_empty() {
                    None
                } else {
                    Some(key)
                }
            },
            None => None,
        }
    }
}

} // verus!
