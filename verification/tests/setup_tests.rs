use quiver::config::Config;
use quiver::device::{device_info_from, BYTES_PER_GB};
use quiver::key_manager::{resolve_mining_key, KeyError, KeyManager, KeyStep};
use quiver::key_storage::{KeyStorage, APP_NAME, KEY_FILENAME};
use quiver::submission::NockPoolSubmissionResponseHandler;
use quiver::text::{joined, trimmed_text};
use quiver::token::{
    bearer_header, delay_seconds, token_endpoint, TokenAnswer, TokenFault, TokenNext, TokenRequest,
    TokenStep, AUTHORIZATION_HEADER, CONTENT_TYPE_HEADER, CONTENT_TYPE_JSON, MAX_RETRIES,
};

fn config(key: Option<&str>, account_token: Option<&str>) -> Config {
    Config {
        key: key.map(|k| k.to_string()),
        account_token: account_token.map(|k| k.to_string()),
        max_threads: None,
        server_address: "quiver.nockpool.com:27016".to_string(),
        client_address: "0.0.0.0:27017".to_string(),
        network_only: false,
        insecure: false,
        benchmark: false,
        clear_key: false,
        api_url: "https://base.nockpool.com".to_string(),
    }
}

#[test]
fn validate_auth_wants_exactly_one_credential() {
    assert_eq!(config(Some("k"), None).validate_auth(), Ok(()));
    assert_eq!(config(None, Some("t")).validate_auth(), Ok(()));
    assert_eq!(
        config(None, None).validate_auth(),
        Err("Either --key or --account-token must be provided".to_string())
    );
    assert_eq!(
        config(Some("k"), Some("t")).validate_auth(),
        Err("Cannot specify both --key and --account-token".to_string())
    );
}

#[test]
fn validate_auth_needs_no_credential_to_benchmark_or_clear() {
    for (key, token) in [(None, None), (Some("k"), Some("t")), (Some("k"), None)] {
        let mut c = config(key, token);
        c.benchmark = true;
        assert_eq!(c.validate_auth(), Ok(()));
        let mut c = config(key, token);
        c.clear_key = true;
        assert_eq!(c.validate_auth(), Ok(()));
    }
}

#[test]
fn a_given_key_is_used_as_it_is() {
    match resolve_mining_key(&config(Some("nock_abc"), None)) {
        KeyStep::Use(key) => assert_eq!(key, "nock_abc"),
        _ => panic!("expected the given key"),
    }
}

#[test]
fn without_a_given_key_the_stored_key_is_looked_at() {
    assert!(matches!(resolve_mining_key(&config(None, Some("t"))), KeyStep::LoadStored));
}

#[test]
fn a_faulty_configuration_fails_with_its_words() {
    match resolve_mining_key(&config(None, None)) {
        KeyStep::Fail(KeyError::Configuration(text)) => {
            assert_eq!(text, "Either --key or --account-token must be provided")
        },
        _ => panic!("expected a configuration error"),
    }
    match resolve_mining_key(&config(Some("k"), Some("t"))) {
        KeyStep::Fail(KeyError::Configuration(text)) => {
            assert_eq!(text, "Cannot specify both --key and --account-token")
        },
        _ => panic!("expected a configuration error"),
    }
}

#[test]
fn a_stored_key_is_used_before_a_new_one_is_made() {
    let m = KeyManager::new(KeyStorage::at("/c".to_string(), "/c/mining_key.txt".to_string()));
    assert_eq!(m.get_key_storage_path(), "/c/mining_key.txt");
    match m.get_mining_key(&config(None, Some("t")), Some("stored".to_string())) {
        KeyStep::Use(key) => assert_eq!(key, "stored"),
        _ => panic!("expected the stored key"),
    }
    match m.get_mining_key(&config(None, Some("acct")), None) {
        KeyStep::Create { account_token, api_url } => {
            assert_eq!(account_token, "acct");
            assert_eq!(api_url, "https://base.nockpool.com");
        },
        _ => panic!("expected a new key to be made"),
    }
    assert!(matches!(
        m.get_mining_key(&config(None, None), None),
        KeyStep::Fail(KeyError::MissingAccountToken)
    ));
}

#[test]
fn nickname_is_the_host_name_or_the_time() {
    assert_eq!(KeyManager::generate_device_nickname(Some("rig7".to_string()), 5), "miner-rig7");
    assert_eq!(KeyManager::generate_device_nickname(Some(String::new()), 1_700_000_000), "miner-1700000000");
    assert_eq!(KeyManager::generate_device_nickname(None, 0), "miner-0");
    assert_eq!(KeyManager::generate_device_nickname(None, u64::MAX), "miner-18446744073709551615");
}

#[test]
fn key_storage_keeps_its_paths() {
    let s = KeyStorage::at("/home/u/.config/nockpool".to_string(), "/home/u/.config/nockpool/mining_key.txt".to_string());
    assert_eq!(s.get_config_dir(), "/home/u/.config/nockpool");
    assert_eq!(s.get_key_file_path(), "/home/u/.config/nockpool/mining_key.txt");
    assert_eq!(APP_NAME, "nockpool");
    assert_eq!(KEY_FILENAME, "mining_key.txt");
}

#[test]
fn load_key_trims_and_drops_empty_content() {
    assert_eq!(KeyStorage::load_key(None), None);
    assert_eq!(KeyStorage::load_key(Some(String::new())), None);
    assert_eq!(KeyStorage::load_key(Some("  \n\t ".to_string())), None);
    assert_eq!(
        KeyStorage::load_key(Some("nock_1234567890abcdef".to_string())),
        Some("nock_1234567890abcdef".to_string())
    );
    assert_eq!(
        KeyStorage::load_key(Some("  nock_1234567890abcdef\n".to_string())),
        Some("nock_1234567890abcdef".to_string())
    );
    assert_eq!(KeyStorage::load_key(Some(" a b ".to_string())), Some("a b".to_string()));
}

#[test]
fn trimmed_text_removes_unicode_white_space() {
    assert_eq!(trimmed_text("\u{2003}x\u{3000}\u{85}"), "x");
    assert_eq!(trimmed_text("\u{a0}\u{1680} y z \u{2028}\u{2029}\u{202f}\u{205f}"), "y z");
    assert_eq!(trimmed_text("\u{200b}x"), "\u{200b}x");
    assert_eq!(trimmed_text(""), "");
    assert_eq!(joined("a", "b"), "ab");
    assert_eq!(joined("", ""), "");
}

#[test]
fn device_info_is_trimmed_and_counted_in_gigabytes() {
    let d = device_info_from(
        Some(" Linux 6.1 ".to_string()),
        Some("AMD Ryzen 9   ".to_string()),
        17 * BYTES_PER_GB + 5,
    );
    assert_eq!(d.os, "Linux 6.1");
    assert_eq!(d.cpu_model, "AMD Ryzen 9");
    assert_eq!(d.ram_capacity_gb, 17);
    let d = device_info_from(None, None, BYTES_PER_GB - 1);
    assert_eq!(d.os, "Unknown OS");
    assert_eq!(d.cpu_model, "Unknown CPU");
    assert_eq!(d.ram_capacity_gb, 0);
    assert_eq!(BYTES_PER_GB, 1_073_741_824);
    assert_eq!(device_info_from(None, None, u64::MAX).ram_capacity_gb, 17_179_869_183);
}

#[test]
fn retry_delays_double_and_stop_at_ten() {
    let delays: Vec<u64> = (0..8).map(delay_seconds).collect();
    assert_eq!(delays, vec![1, 2, 4, 8, 10, 10, 10, 10]);
    assert_eq!(delay_seconds(u32::MAX), 10);
}

#[test]
fn rate_limited_request_is_retried_five_times() {
    let mut r = TokenRequest::new();
    let mut delays = Vec::new();
    loop {
        match r.on_status(429) {
            TokenStep::RetryAfter(seconds) => delays.push(seconds),
            TokenStep::Fail(fault) => {
                assert_eq!(fault, TokenFault::RateLimited);
                break;
            },
        }
    }
    assert_eq!(delays, vec![1, 2, 4, 8, 10]);
    assert_eq!(MAX_RETRIES, 5);
    assert_eq!(r.on_status(429), TokenStep::Fail(TokenFault::RateLimited));
}

#[test]
fn other_statuses_fail_at_once() {
    let mut r = TokenRequest::new();
    assert_eq!(r.on_status(401), TokenStep::Fail(TokenFault::InvalidAccountToken));
    assert_eq!(r.on_status(403), TokenStep::Fail(TokenFault::Forbidden));
    assert_eq!(r.on_status(404), TokenStep::Fail(TokenFault::EndpointNotFound));
    assert_eq!(r.on_status(500), TokenStep::Fail(TokenFault::Rejected));
    assert_eq!(r.on_status(400), TokenStep::Fail(TokenFault::Rejected));
    assert_eq!(r.on_status(429), TokenStep::RetryAfter(1));
    assert_eq!(r.on_status(503), TokenStep::Fail(TokenFault::Rejected));
    assert_eq!(r.on_status(429), TokenStep::RetryAfter(2));
}

#[test]
fn response_handlers_are_all_alike() {
    assert_eq!(NockPoolSubmissionResponseHandler::new(), NockPoolSubmissionResponseHandler::new());
}

#[test]
fn test_key_storage_operations() {
    let config_dir = "/tmp/nockpool-test".to_string();
    let key_file_path = format!("{}/{}", config_dir, KEY_FILENAME);
    let storage = KeyStorage::at(config_dir, key_file_path);
    assert_eq!(storage.get_key_file_path(), "/tmp/nockpool-test/mining_key.txt");
    // The key file, as the caller reads and writes it.
    let mut file: Option<String> = None;

    // Test no key initially
    assert!(file.is_none());
    assert!(KeyStorage::load_key(file.clone()).is_none());

    // Test save and load
    let test_key = "nock_1234567890abcdef";
    file = Some(test_key.to_string());
    assert!(file.is_some());
    assert_eq!(KeyStorage::load_key(file.clone()).unwrap(), test_key);

    // Test delete
    file = None;
    assert!(file.is_none());
}

fn manager() -> KeyManager {
    KeyManager::new(KeyStorage::at("/c".to_string(), "/c/mining_key.txt".to_string()))
}

#[test]
fn a_given_key_wins_over_a_stored_one() {
    let m = manager();
    let c = config(Some("given"), Some("acct"));
    match m.start(&c) {
        KeyStep::Use(key) => assert_eq!(key, "given"),
        _ => panic!("expected the given key"),
    }
    match m.get_mining_key(&c, Some("stored".to_string())) {
        KeyStep::Use(key) => assert_eq!(key, "given"),
        _ => panic!("expected the given key"),
    }
    match m.get_mining_key(&c, None) {
        KeyStep::Use(key) => assert_eq!(key, "given"),
        _ => panic!("expected the given key"),
    }
    match m.get_mining_key(&config(Some("given"), None), Some("stored".to_string())) {
        KeyStep::Use(key) => assert_eq!(key, "given"),
        _ => panic!("expected the given key"),
    }
}

#[test]
fn the_search_starts_at_the_store_without_a_given_key() {
    assert!(matches!(manager().start(&config(None, Some("t"))), KeyStep::LoadStored));
    assert!(matches!(manager().start(&config(None, None)), KeyStep::LoadStored));
}

#[test]
fn a_new_key_is_stored_and_then_used() {
    let m = manager();
    let c = config(None, Some("acct"));
    assert!(matches!(m.get_mining_key(&c, None), KeyStep::Create { .. }));
    let stored = match m.on_created(Some("nock_new".to_string())) {
        KeyStep::Store(key) => key,
        _ => panic!("expected the new key to be stored"),
    };
    assert_eq!(stored, "nock_new");
    match m.on_stored(stored, true) {
        KeyStep::Use(key) => assert_eq!(key, "nock_new"),
        _ => panic!("expected the new key to be used"),
    }
    assert_eq!(
        KeyStorage::load_key(Some("nock_new".to_string())),
        Some("nock_new".to_string())
    );
}

#[test]
fn a_key_that_could_not_be_made_or_stored_is_not_used() {
    let m = manager();
    assert!(matches!(m.on_created(None), KeyStep::Fail(KeyError::CreationFailed)));
    assert!(matches!(
        m.on_stored("nock_new".to_string(), false),
        KeyStep::Fail(KeyError::StoreFailed)
    ));
}

#[test]
fn the_request_goes_to_the_mining_tokens_address() {
    assert_eq!(
        token_endpoint("https://base.nockpool.com"),
        "https://base.nockpool.com/api/v1/mining-tokens"
    );
    assert_eq!(token_endpoint(""), "/api/v1/mining-tokens");
    assert_eq!(token_endpoint("http://localhost:3000/"), "http://localhost:3000//api/v1/mining-tokens");
}

#[test]
fn the_account_token_is_sent_as_a_bearer() {
    assert_eq!(bearer_header("acct_123"), "Bearer acct_123");
    assert_eq!(bearer_header(""), "Bearer ");
    assert_eq!(AUTHORIZATION_HEADER, "Authorization");
    assert_eq!(CONTENT_TYPE_HEADER, "Content-Type");
    assert_eq!(CONTENT_TYPE_JSON, "application/json");
}

#[test]
fn the_body_names_the_device_and_no_expiry() {
    let b = TokenRequest::body(Some("miner-rig7".to_string()));
    assert_eq!(b.device_nickname, Some("miner-rig7".to_string()));
    assert_eq!(b.expires_days, None);
    let b = TokenRequest::body(None);
    assert_eq!(b.device_nickname, None);
    assert_eq!(b.expires_days, None);
}

#[test]
fn a_created_key_ends_the_request() {
    let mut r = TokenRequest::new();
    match r.on_answer(TokenAnswer::Created("nock_m".to_string())) {
        TokenNext::Done(key) => assert_eq!(key, "nock_m"),
        _ => panic!("expected the key"),
    }
}

#[test]
fn a_key_comes_after_up_to_five_rate_limits() {
    for limited in 0..=5u32 {
        let mut r = TokenRequest::new();
        let mut sends = 0;
        let mut delays = Vec::new();
        for _ in 0..limited {
            sends += 1;
            match r.on_answer(TokenAnswer::Refused(429)) {
                TokenNext::RetryAfter(seconds) => delays.push(seconds),
                _ => panic!("expected a retry"),
            }
        }
        sends += 1;
        match r.on_answer(TokenAnswer::Created("nock_m".to_string())) {
            TokenNext::Done(key) => assert_eq!(key, "nock_m"),
            _ => panic!("expected the key"),
        }
        assert_eq!(sends, limited + 1);
        assert_eq!(delays, [1u64, 2, 4, 8, 10][..limited as usize].to_vec());
    }
}

#[test]
fn the_sixth_rate_limit_and_other_answers_fail() {
    let mut r = TokenRequest::new();
    for _ in 0..5 {
        assert!(matches!(r.on_answer(TokenAnswer::Refused(429)), TokenNext::RetryAfter(_)));
    }
    assert!(matches!(
        r.on_answer(TokenAnswer::Refused(429)),
        TokenNext::Fail(TokenFault::RateLimited)
    ));
    let mut r = TokenRequest::new();
    assert!(matches!(
        r.on_answer(TokenAnswer::Refused(401)),
        TokenNext::Fail(TokenFault::InvalidAccountToken)
    ));
    assert!(matches!(
        r.on_answer(TokenAnswer::Refused(403)),
        TokenNext::Fail(TokenFault::Forbidden)
    ));
    assert!(matches!(
        r.on_answer(TokenAnswer::Refused(404)),
        TokenNext::Fail(TokenFault::EndpointNotFound)
    ));
    assert!(matches!(r.on_answer(TokenAnswer::Refused(500)), TokenNext::Fail(TokenFault::Rejected)));
}
