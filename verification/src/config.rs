//! The worker's settings, and the rule on how it may name its credential.

use vstd::prelude::*;

verus! {

/// The settings of a worker.
#[derive(Debug, Clone)]
pub struct Config {
    /// The secret key for authentication with the pool server.
    pub key: Option<String>,
    /// An account token from which a key can be made, in place of `key`.
    pub account_token: Option<String>,
    /// The largest number of mining threads. All cores are used if unset.
    pub max_threads: Option<u32>,
    /// The `ip:port` of the pool server.
    pub server_address: String,
    /// The `ip:port` that the client binds.
    pub client_address: String,
    /// Whether to mine for network shares only.
    pub network_only: bool,
    /// Whether to connect without verifying the server's certificate.
    pub insecure: bool,
    /// Whether to run the benchmark and exit.
    pub benchmark: bool,
    /// Whether to clear the stored key and exit.
    pub clear_key: bool,
    /// The base URL of the pool's API.
    pub api_url: String,
}

/// What is wrong with the way a configuration names its credential.
#[derive(Debug, Clone, Copy, PartialEq, Eq, Structural)]
pub enum AuthFault {
    /// Neither a key nor an account token is given.
    Neither,
    /// Both a key and an account token are given.
    Both,
}

/// What the configuration does wrong in naming its credential, if
/// anything. A run that only benchmarks or only clears the stored key
/// needs no credential; any other needs a key or an account token, and
/// not both.
pub open spec fn auth_fault(
    benchmark: bool,
    clear_key: bool,
    has_key: bool,
    has_account_token: bool,
) -> Option<AuthFault> {
    if benchmark || clear_key {
        None
    } else if has_key && has_account_token {
        Some(AuthFault::Both)
    } else if !has_key && !has_account_token {
        Some(AuthFault::Neither)
    } else {
        None
    }
}

/// The words for a fault.
pub open spec fn fault_text(fault: AuthFault) -> Seq<char> {
    match fault {
        AuthFault::Neither => "Either --key or --account-token must be provided"@,
        AuthFault::Both => "Cannot specify both --key and --account-token"@,
    }
}

impl Config {
    /// The fault of this configuration, if it has one.
    pub open spec fn fault(&self) -> Option<AuthFault> {
        auth_fault(self.benchmark, self.clear_key, self.key is Some, self.account_token is Some)
    }

    /// Checks that the configuration names its credential in exactly one
    /// way, unless the run needs none.
    pub fn validate_auth(&self) -> (r: Result<(), String>)
        ensures
            match r {
                Ok(_) => self.fault() is None,
                Err(text) => self.fault() is Some && text@ == fault_text(self.fault()->0),
            },
    {
        if self.benchmark || self.clear_key {
            return Ok(());
        }
        let has_key = self.key.is_some();
        let has_account_token = self.account_token.is_some();
        if has_key && has_account_token {
            Err("Cannot specify both --key and --account-token".to_owned())
        } else if !has_key && !has_account_token {
            Err("Either --key or --account-token must be provided".to_owned())
        } else {
            Ok(())
        }
    }
}

} // verus!
