//! Which mining key a worker uses: the one it was given, the one it kept
//! from an earlier run, or a new one made from an account token.
//!
//! A key that was given always wins: the store is not even looked at. A
//! new key is used only once it has been stored.

use crate::config::{fault_text, Config};
use crate::key_storage::KeyStorage;
use crate::text::{decimal, decimal_text, joined};
use vstd::prelude::*;

verus! {

/// Why no mining key can be had.
pub enum KeyError {
    /// The configuration names its credential wrongly; the text says how.
    Configuration(String),
    /// No key is given, none is stored, and there is no account token to
    /// make one from.
    MissingAccountToken,
    /// The new key could not be made.
    CreationFailed,
    /// The new key could not be stored.
    StoreFailed,
}

/// The next thing to do towards a mining key.
pub enum KeyStep {
    /// Use this key.
    Use(String),
    /// Read the stored key and come back with what was found.
    LoadStored,
    /// Make a new key from this account token at this API and come back
    /// with it.
    Create { account_token: String, api_url: String },
    /// Store this key and come back to say whether that worked.
    Store(String),
    /// Give up.
    Fail(KeyError),
}

/// The mathematical value of a `KeyStep`.
pub enum KeyStepView {
    Use(Seq<char>),
    LoadStored,
    Create { account_token: Seq<char>, api_url: Seq<char> },
    Store(Seq<char>),
    FailConfiguration(Seq<char>),
    FailMissingAccountToken,
    FailCreation,
    FailStore,
}

impl View for KeyStep {
    type V = KeyStepView;

    open spec fn view(&self) -> KeyStepView {
        match *self {
            KeyStep::Use(k) => KeyStepView::Use(k@),
            KeyStep::LoadStored => KeyStepView::LoadStored,
            KeyStep::Create { account_token, api_url } => KeyStepView::Create {
                account_token: account_token@,
                api_url: api_url@,
            },
            KeyStep::Store(k) => KeyStepView::Store(k@),
            KeyStep::Fail(KeyError::Configuration(text)) => KeyStepView::FailConfiguration(text@),
            KeyStep::Fail(KeyError::MissingAccountToken) => KeyStepView::FailMissingAccountToken,
            KeyStep::Fail(KeyError::CreationFailed) => KeyStepView::FailCreation,
            KeyStep::Fail(KeyError::StoreFailed) => KeyStepView::FailStore,
        }
    }
}

/// The view of a text that may be missing.
pub open spec fn text_of(t: Option<String>) -> Option<Seq<char>> {
    match t {
        Some(s) => Some(s@),
        None => None,
    }
}

/// The step with which the search for a key begins: a key that was given
/// is used as it is, and otherwise the stored key is looked at.
pub open spec fn start_step(config: Config) -> KeyStepView {
    match config.key {
        Some(key) => KeyStepView::Use(key@),
        None => KeyStepView::LoadStored,
    }
}

/// The first step for a configuration that has yet to be checked: one
/// with a fault fails with its words, any other begins the search.
pub open spec fn first_step(config: Config) -> KeyStepView {
    match config.fault() {
        Some(fault) => KeyStepView::FailConfiguration(fault_text(fault)),
        None => start_step(config),
    }
}

/// The step after the stored key was looked at. A key that was given is
/// used, whatever is stored. Without one a stored key is used, and without
/// that a new key is made from the account token, if there is one.
pub open spec fn step_after_load(config: Config, stored: Option<Seq<char>>) -> KeyStepView {
    match config.key {
        Some(key) => KeyStepView::Use(key@),
        None => match stored {
            Some(key) => KeyStepView::Use(key),
            None => match config.account_token {
                Some(token) => KeyStepView::Create {
                    account_token: token@,
                    api_url: config.api_url@,
                },
                None => KeyStepView::FailMissingAccountToken,
            },
        },
    }
}

/// The step after the making of a new key: the new key is to be stored;
/// without a new key the search fails and nothing is stored.
pub open spec fn step_after_creation(created: Option<Seq<char>>) -> KeyStepView {
    match created {
        Some(key) => KeyStepView::Store(key),
        None => KeyStepView::FailCreation,
    }
}

/// The step after the storing of a new key: a key that was stored is
/// used; one that could not be stored is not.
pub open spec fn step_after_store(key: Seq<char>, saved: bool) -> KeyStepView {
    if saved {
        KeyStepView::Use(key)
    } else {
        KeyStepView::FailStore
    }
}

/// The first step towards a mining key, for a configuration that has yet
/// to be checked.
pub fn resolve_mining_key(config: &Config) -> (step: KeyStep)
    ensures
        step@ == first_step(*config),
{
    match config.validate_auth() {
        Err(text) => KeyStep::Fail(KeyError::Configuration(text)),
        Ok(_) => match &config.key {
            Some(key) => KeyStep::Use(key.clone()),
            None => KeyStep::LoadStored,
        },
    }
}

/// The name under which a new key is registered: `miner-` and the host's
/// name, or, for a host without a name, `miner-` and the time in seconds.
pub open spec fn nickname_of(hostname: Option<Seq<char>>, now_secs: u64) -> Seq<char> {
    match hostname {
        Some(name) => if name.len() > 0 {
            "miner-"@ + name
        } else {
            "miner-"@ + decimal(now_secs as nat)
        },
        None => "miner-"@ + decimal(now_secs as nat),
    }
}

/// Finds the mining key of a worker. It knows where the key is stored;
/// reading and writing there is the caller's part.
pub struct KeyManager {
    storage: KeyStorage,
}

impl KeyManager {
    /// The place of the stored key.
    pub closed spec fn storage(&self) -> KeyStorage {
        self.storage
    }

    /// A key manager for the key stored at `storage`.
    pub fn new(storage: KeyStorage) -> (m: Self)
        ensures
            m.storage() == storage,
    {
        KeyManager { storage }
    }

    /// The step with which the search for a key begins.
    pub fn start(&self, config: &Config) -> (step: KeyStep)
        ensures
            step@ == start_step(*config),
    {
        match &config.key {
            Some(key) => KeyStep::Use(key.clone()),
            None => KeyStep::LoadStored,
        }
    }

    /// The step after the stored key was looked at: `stored` is the key
    /// that was found there, if any.
    pub fn get_mining_key(&self, config: &Config, stored: Option<String>) -> (step: KeyStep)
        ensures
            step@ == step_after_load(*config, text_of(stored)),
    {
        match &config.key {
            Some(key) => KeyStep::Use(key.clone()),
            None => match stored {
                Some(key) => KeyStep::Use(key),
                None => match &config.account_token {
                    Some(token) => KeyStep::Create {
                        account_token: token.clone(),
                        api_url: config.api_url.clone(),
                    },
                    None => KeyStep::Fail(KeyError::MissingAccountToken),
                },
            },
        }
    }

    /// The step after the making of a new key: `created` is the new key,
    /// or nothing if it could not be made.
    pub fn on_created(&self, created: Option<String>) -> (step: KeyStep)
        ensures
            step@ == step_after_creation(text_of(created)),
    {
        match created {
            Some(key) => KeyStep::Store(key),
            None => KeyStep::Fail(KeyError::CreationFailed),
        }
    }

    /// The step after the storing of a new key: `saved` says whether the
    /// key is now in the store.
    pub fn on_stored(&self, key: String, saved: bool) -> (step: KeyStep)
        ensures
            step@ == step_after_store(key@, saved),
    {
        if saved {
            KeyStep::Use(key)
        } else {
            KeyStep::Fail(KeyError::StoreFailed)
        }
    }

    /// The path of the file that holds the stored key.
    pub fn get_key_storage_path(&self) -> (path: String)
        ensures
            path@ == self.storage().path(),
    {
        self.storage.get_key_file_path().clone()
    }

    /// The name under which a new key is registered.
    pub fn generate_device_nickname(hostname: Option<String>, now_secs: u64) -> (name: String)
        ensures
            name@ == nickname_of(text_of(hostname), now_secs),
    {
        match hostname {
            Some(host) => {
                if host.as_str().is_empty() {
                    joined("miner-", decimal_text(now_secs).as_str())
                } else {
                    joined("miner-", host.as_str())
                }
            },
            None => joined("miner-", decimal_text(now_secs).as_str()),
        }
    }
}

/// A key that was given is the key that is used: at the start, and again
/// after the store was looked at, whatever was found there and whether or
/// not there is an account token. The store is never asked to be read or
/// written, and no new key is asked for.
pub proof fn theorem_given_key_wins(config: Config, stored: Option<Seq<char>>)
    requires
        config.key is Some,
    ensures
        start_step(config) == KeyStepView::Use(config.key->0@),
        step_after_load(config, stored) == KeyStepView::Use(config.key->0@),
{
}

/// Without a given key and without a stored one, a new key is made from
/// the account token. If that works, the new key is stored and then used;
/// if it does not, or if the key cannot be stored, the search fails, and a
/// key that could not be made is never stored.
pub proof fn theorem_new_key_is_stored_before_use(config: Config, new_key: Seq<char>)
    requires
        config.key is None,
        config.account_token is Some,
    ensures
        step_after_load(config, None) == (KeyStepView::Create {
            account_token: config.account_token->0@,
            api_url: config.api_url@,
        }),
        step_after_creation(Some(new_key)) == KeyStepView::Store(new_key),
        step_after_store(new_key, true) == KeyStepView::Use(new_key),
        step_after_creation(None) == KeyStepView::FailCreation,
        step_after_store(new_key, false) == KeyStepView::FailStore,
{
}

} // verus!
