use solana_program::hash::hashv;
use storage::client::{
    airdrop_request,
    get_keypair_path, get_object_account_public_key, get_object_data_size, get_rpc_url,
    parse_config, single_document, CliConfig, Error, InvalidConfig, PubkeyError, MAX_SEED_LEN,
};
use yaml_rust::Yaml;

const CONFIG: &str = "---\njson_rpc_url: \"http://localhost:8899\"\nwebsocket_url: \"\"\nkeypair_path: /home/user/.config/solana/id.json\ncommitment: confirmed\n";

#[test]
fn object_data_size_is_four() {
    assert_eq!(get_object_data_size(), Ok(4));
}

#[test]
fn rpc_url_and_keypair_path_are_read() {
    assert_eq!(get_rpc_url(CONFIG), Ok("http://localhost:8899".to_string()));
    assert_eq!(
        get_keypair_path(CONFIG),
        Ok("/home/user/.config/solana/id.json".to_string())
    );
}

#[test]
fn missing_settings_are_reported() {
    let text = "keypair_path: /tmp/id.json\njson_rpc_url: 8899\n";
    assert_eq!(get_rpc_url(text), Err(Error::InvalidConfig(InvalidConfig::MissingJsonRpcUrl)));
    assert_eq!(get_keypair_path(text), Ok("/tmp/id.json".to_string()));
    let text = "- json_rpc_url\n- keypair_path\n";
    assert_eq!(get_keypair_path(text), Err(Error::InvalidConfig(InvalidConfig::MissingKeypairPath)));
}

#[test]
fn config_must_hold_one_document() {
    assert_eq!(
        get_rpc_url("---\na: b\n---\nc: d\n"),
        Err(Error::InvalidConfig(InvalidConfig::DocumentCount(2)))
    );
    assert_eq!(get_rpc_url(""), Err(Error::InvalidConfig(InvalidConfig::DocumentCount(0))));
    assert!(parse_config("a: b\n").is_ok());
}

#[test]
fn config_that_is_not_yaml_is_reported() {
    assert!(matches!(get_rpc_url("a: [1, 2\n"), Err(Error::YamlScan(_))));
    assert!(matches!(parse_config("key: \"unterminated\n"), Err(Error::YamlScan(_))));
}

#[test]
fn object_account_address_is_the_seeded_hash() {
    let payer = [3u8; 32];
    let program = [5u8; 32];
    let expected = hashv(&[&payer, b"sender", &program]).to_bytes();
    let got = get_object_account_public_key(&payer, "sender", &program).unwrap();
    assert_eq!(got, expected);
    assert_ne!(got, payer);
    let other = get_object_account_public_key(&payer, "receiver", &program).unwrap();
    assert_ne!(got, other);
}

#[test]
fn object_account_address_refusals() {
    let payer = [3u8; 32];
    let program = [5u8; 32];
    let long_seed = "x".repeat(MAX_SEED_LEN + 1);
    assert_eq!(
        get_object_account_public_key(&payer, &long_seed, &program),
        Err(Error::PubkeyError(PubkeyError::MaxSeedLengthExceeded))
    );
    let wide_seed = "\u{e9}".repeat(17);
    assert_eq!(wide_seed.chars().count(), 17);
    assert_eq!(
        get_object_account_public_key(&payer, &wide_seed, &program),
        Err(Error::PubkeyError(PubkeyError::MaxSeedLengthExceeded))
    );
    let longest = "x".repeat(MAX_SEED_LEN);
    assert!(get_object_account_public_key(&payer, &longest, &program).is_ok());
    let mut marked = [0u8; 32];
    marked[11..].copy_from_slice(b"ProgramDerivedAddress");
    assert_eq!(
        get_object_account_public_key(&payer, "sender", &marked),
        Err(Error::PubkeyError(PubkeyError::IllegalOwner))
    );
    assert_eq!(
        get_object_account_public_key(&payer, &long_seed, &marked),
        Err(Error::PubkeyError(PubkeyError::MaxSeedLengthExceeded))
    );
}

#[test]
fn single_document_counts_documents() {
    assert_eq!(
        single_document(vec![]),
        Err(Error::InvalidConfig(InvalidConfig::DocumentCount(0)))
    );
    assert_eq!(
        single_document(vec![Yaml::Null, Yaml::Boolean(true)]),
        Err(Error::InvalidConfig(InvalidConfig::DocumentCount(2)))
    );
    assert_eq!(
        single_document(vec![Yaml::Integer(3)]),
        Ok(CliConfig { json_rpc_url: None, keypair_path: None })
    );
}

#[test]
fn airdrop_asks_for_what_is_missing() {
    assert_eq!(airdrop_request(100, 250), Some(150));
    assert_eq!(airdrop_request(250, 250), None);
    assert_eq!(airdrop_request(300, 250), None);
    assert_eq!(airdrop_request(0, u64::MAX), Some(u64::MAX));
}

#[test]
fn scan_errors_are_passed_on_unchanged() {
    let text = "a: [1, 2\n";
    let parsed = parse_config(text).unwrap_err();
    assert!(matches!(parsed, Error::YamlScan(_)));
    assert_eq!(get_rpc_url(text).unwrap_err(), parsed);
    assert_eq!(get_keypair_path(text).unwrap_err(), parsed);
}

#[test]
fn config_settings_are_read() {
    assert_eq!(
        parse_config(CONFIG),
        Ok(CliConfig {
            json_rpc_url: Some("http://localhost:8899".to_string()),
            keypair_path: Some("/home/user/.config/solana/id.json".to_string()),
        })
    );
    assert_eq!(
        parse_config("json_rpc_url: [a]\n"),
        Ok(CliConfig { json_rpc_url: None, keypair_path: None })
    );
}

#[test]
fn deeply_nested_config_is_refused_before_loading() {
    let deep = "- ".repeat(100_000) + "x\n";
    assert_eq!(parse_config(&deep), Err(Error::InvalidConfig(InvalidConfig::NestingTooDeep)));
    assert_eq!(get_rpc_url(&deep), Err(Error::InvalidConfig(InvalidConfig::NestingTooDeep)));
    let many = "a: b\n".repeat(257);
    assert_eq!(parse_config(&many), Err(Error::InvalidConfig(InvalidConfig::NestingTooDeep)));
    let shallow = "- ".repeat(200) + "x\n";
    assert_eq!(
        parse_config(&shallow),
        Ok(CliConfig { json_rpc_url: None, keypair_path: None })
    );
}
