use crate::layout::encode_control;
use crate::program::{ColorObject, ControlWrapper};
use crate::yaml::{
    count_nesting_indicators, load_yaml, nesting_indicators, yaml_documents, yaml_str,
    yaml_string_entries, MAX_YAML_NESTING,
};
use solana_program::pubkey::Pubkey;
use vstd::prelude::*;
use vstd::string::StringSliceAdditionalSpecFns;
use yaml_rust::Yaml;

verus! {

/// Why an address cannot be derived from a seed.
#[derive(Clone, Copy, Debug, PartialEq, Eq, Structural)]
pub enum PubkeyError {
    /// The seed is longer than `MAX_SEED_LEN` bytes.
    MaxSeedLengthExceeded,
    /// The seeds do not give a valid address.
    InvalidSeeds,
    /// The owner is not allowed.
    IllegalOwner,
}

/// What is wrong with a Solana CLI configuration.
#[derive(Clone, Copy, Debug, PartialEq, Eq, Structural)]
pub enum InvalidConfig {
    /// The file does not hold exactly one YAML document; it holds this many.
    DocumentCount(usize),
    /// The `json_rpc_url` setting is missing.
    MissingJsonRpcUrl,
    /// The `keypair_path` setting is missing.
    MissingKeypairPath,
    /// The text nests deeper than the loader is trusted to follow: it holds
    /// more than `MAX_YAML_NESTING` nesting indicators.
    NestingTooDeep,
}

/// The settings of a Solana CLI configuration that the client reads.
#[derive(Clone, Debug, PartialEq, Eq)]
pub struct CliConfig {
    /// The `json_rpc_url` setting, when it is there and is a string.
    pub json_rpc_url: Option<String>,
    /// The `keypair_path` setting, when it is there and is a string.
    pub keypair_path: Option<String>,
}

/// The errors of the client helpers.
#[derive(Clone, Debug, PartialEq, Eq)]
pub enum Error {
    /// The configuration is not YAML; the scanner's message.
    YamlScan(String),
    /// The configuration is YAML but not what the client needs.
    InvalidConfig(InvalidConfig),
    /// An object could not be serialized; the serializer's message.
    SerializationError(String),
    /// An address could not be derived.
    PubkeyError(PubkeyError),
}

/// The longest seed, in bytes, from which an address is derived.
pub const MAX_SEED_LEN: usize = 32;

/// The suffix that marks a program derived address, which may not own a
/// seeded address: the bytes of `ProgramDerivedAddress`.
pub open spec fn pda_marker() -> Seq<u8> {
    seq![
        80u8, 114, 111, 103, 114, 97, 109, 68, 101, 114, 105, 118, 101, 100, 65, 100, 100, 114, 101,
        115, 115,
    ]
}

/// The address derived from `base`, `seed` and `owner`: the SHA-256 hash of
/// the three, one after the other.
pub uninterp spec fn seeded_address(base: Seq<u8>, seed: Seq<char>, owner: Seq<u8>) -> Seq<u8>;

/// Whether `owner` ends with the program-derived-address marker.
pub open spec fn marks_program_derived(owner: Seq<u8>) -> bool {
    owner.len() >= 21 && owner.skip(owner.len() - 21) == pda_marker()
}

/// Calls `Pubkey::create_with_seed`. Claimed, as its source shows: a seed
/// of more than `MAX_SEED_LEN` bytes is refused, then an owner that ends
/// with the program-derived-address marker; otherwise the address is the
/// hash of base, seed and owner, which depends on them alone.
#[verifier::external_body]
fn create_with_seed(base: &[u8; 32], seed: &str, owner: &[u8; 32]) -> (r: Result<[u8; 32], PubkeyError>)
    ensures
        seed.spec_bytes().len() > MAX_SEED_LEN ==> r matches Err(PubkeyError::MaxSeedLengthExceeded),
        seed.spec_bytes().len() <= MAX_SEED_LEN && marks_program_derived(owner@) ==> r matches Err(
            PubkeyError::IllegalOwner,
        ),
        seed.spec_bytes().len() <= MAX_SEED_LEN && !marks_program_derived(owner@) ==> r is Ok,
        r matches Ok(a) ==> a@ == seeded_address(base@, seed@, owner@),
{
    let base = Pubkey::new_from_array(*base);
    let owner = Pubkey::new_from_array(*owner);
    match Pubkey::create_with_seed(&base, seed, &owner) {
        Ok(k) => Ok(k.to_bytes()),
        Err(solana_program::pubkey::PubkeyError::MaxSeedLengthExceeded) => Err(
            PubkeyError::MaxSeedLengthExceeded,
        ),
        Err(solana_program::pubkey::PubkeyError::InvalidSeeds) => Err(PubkeyError::InvalidSeeds),
        Err(solana_program::pubkey::PubkeyError::IllegalOwner) => Err(PubkeyError::IllegalOwner),
    }
}

/// Derives and returns the object account address for a given payer, seed
/// and program.
pub fn get_object_account_public_key(payer: &[u8; 32], seed: &str, program: &[u8; 32]) -> (r: Result<
    [u8; 32],
    Error,
>)
    ensures
        seed.spec_bytes().len() > MAX_SEED_LEN ==> r == Err::<[u8; 32], Error>(
            Error::PubkeyError(PubkeyError::MaxSeedLengthExceeded),
        ),
        seed.spec_bytes().len() <= MAX_SEED_LEN && marks_program_derived(program@) ==> r == Err::<
            [u8; 32],
            Error,
        >(Error::PubkeyError(PubkeyError::IllegalOwner)),
        seed.spec_bytes().len() <= MAX_SEED_LEN && !marks_program_derived(program@) ==> r is Ok,
        r matches Ok(a) ==> a@ == seeded_address(payer@, seed@, program@),
{
    match create_with_seed(payer, seed, program) {
        Ok(k) => Ok(k),
        Err(e) => Err(Error::PubkeyError(e)),
    }
}

/// Determines and reports the size of an object account's data: the
/// serialized state of an account that holds no object.
pub fn get_object_data_size() -> (r: Result<usize, Error>)
    ensures
        r == Ok::<usize, Error>(4),
{
    let empty = ControlWrapper { exists: false, value: ColorObject { red: 0, green: 0, blue: 0 } };
    let encoded = match encode_control(&empty) {
        Ok(v) => v,
        Err(e) => return Err(Error::SerializationError(e)),
    };
    Ok(encoded.len())
}

/// Whether `found` is the string setting `key` of `settings`: the value
/// when there is one, none when there is not.
pub open spec fn setting_read(found: Option<String>, settings: Map<Seq<char>, Seq<char>>, key: Seq<char>) -> bool {
    match found {
        Some(v) => settings.contains_key(key) && v@ == settings[key],
        None => !settings.contains_key(key),
    }
}

/// Whether `config` holds the settings that the client reads from `settings`.
pub open spec fn config_read(config: CliConfig, settings: Map<Seq<char>, Seq<char>>) -> bool {
    &&& setting_read(config.json_rpc_url, settings, "json_rpc_url"@)
    &&& setting_read(config.keypair_path, settings, "keypair_path"@)
}

/// What parsing the configuration text gives: a refusal of texts that nest
/// too deeply, the scanner's message, a wrong number of documents, or the
/// settings of the one document.
pub open spec fn config_parsed(text: &str, r: Result<CliConfig, Error>) -> bool {
    if nesting_indicators(text.spec_bytes()) > MAX_YAML_NESTING {
        r == Err::<CliConfig, Error>(Error::InvalidConfig(InvalidConfig::NestingTooDeep))
    } else {
        match yaml_documents(text@) {
            Err(msg) => r matches Err(Error::YamlScan(m)) && m@ == msg,
            Ok(docs) => if docs.len() == 1 {
                r matches Ok(config) && config_read(config, docs[0])
            } else {
                r == Err::<CliConfig, Error>(
                    Error::InvalidConfig(InvalidConfig::DocumentCount(docs.len() as usize)),
                )
            },
        }
    }
}

/// Reads the settings of a loaded configuration, which must hold exactly
/// one document.
pub fn single_document(docs: Vec<Yaml>) -> (r: Result<CliConfig, Error>)
    ensures
        docs@.len() == 1 ==> (r matches Ok(config) && config_read(
            config,
            yaml_string_entries(docs@[0]),
        )),
        docs@.len() != 1 ==> r == Err::<CliConfig, Error>(
            Error::InvalidConfig(InvalidConfig::DocumentCount(docs@.len() as usize)),
        ),
{
    if docs.len() == 1 {
        let json_rpc_url = yaml_str(&docs[0], "json_rpc_url");
        let keypair_path = yaml_str(&docs[0], "keypair_path");
        Ok(CliConfig { json_rpc_url, keypair_path })
    } else {
        Err(Error::InvalidConfig(InvalidConfig::DocumentCount(docs.len())))
    }
}

/// Parses the text of a Solana CLI configuration, which must hold exactly
/// one YAML document, and returns the settings the client reads from it.
pub fn parse_config(text: &str) -> (r: Result<CliConfig, Error>)
    ensures
        config_parsed(text, r),
        (nesting_indicators(text.spec_bytes()) <= MAX_YAML_NESTING && yaml_documents(text@) is Ok
            && yaml_documents(text@)->Ok_0.len() == 1) ==> (r matches Ok(config) && (
        config.json_rpc_url is Some <==> yaml_documents(text@)->Ok_0[0].contains_key(
            "json_rpc_url"@,
        )) && (config.keypair_path is Some <==> yaml_documents(text@)->Ok_0[0].contains_key(
            "keypair_path"@,
        ))),
{
    if count_nesting_indicators(text) > MAX_YAML_NESTING {
        return Err(Error::InvalidConfig(InvalidConfig::NestingTooDeep));
    }
    let docs = match load_yaml(text) {
        Ok(d) => d,
        Err(e) => return Err(Error::YamlScan(e)),
    };
    single_document(docs)
}

/// The string setting `key` of the configuration text, or why there is
/// none: what `get_rpc_url` and `get_keypair_path` return.
pub open spec fn config_setting_holds(
    text: &str,
    key: Seq<char>,
    missing: InvalidConfig,
    r: Result<String, Error>,
) -> bool {
    if nesting_indicators(text.spec_bytes()) > MAX_YAML_NESTING {
        r == Err::<String, Error>(Error::InvalidConfig(InvalidConfig::NestingTooDeep))
    } else {
        match yaml_documents(text@) {
            Err(msg) => r matches Err(Error::YamlScan(m)) && m@ == msg,
            Ok(docs) => if docs.len() != 1 {
                r == Err::<String, Error>(
                    Error::InvalidConfig(InvalidConfig::DocumentCount(docs.len() as usize)),
                )
            } else if docs[0].contains_key(key) {
                r matches Ok(value) && value@ == docs[0][key]
            } else {
                r == Err::<String, Error>(Error::InvalidConfig(missing))
            },
        }
    }
}

/// Gets the RPC url for the cluster that this machine is configured to
/// communicate with: the `json_rpc_url` setting of the configuration text.
pub fn get_rpc_url(config_text: &str) -> (r: Result<String, Error>)
    ensures
        config_setting_holds(config_text, "json_rpc_url"@, InvalidConfig::MissingJsonRpcUrl, r),
        (nesting_indicators(config_text.spec_bytes()) <= MAX_YAML_NESTING && yaml_documents(
            config_text@,
        ) is Ok && yaml_documents(config_text@)->Ok_0.len() == 1 && yaml_documents(
            config_text@,
        )->Ok_0[0].contains_key("json_rpc_url"@)) ==> (r matches Ok(url) && url@ == yaml_documents(
            config_text@,
        )->Ok_0[0]["json_rpc_url"@]),
{
    let config = parse_config(config_text)?;
    match config.json_rpc_url {
        Some(url) => Ok(url),
        None => Err(Error::InvalidConfig(InvalidConfig::MissingJsonRpcUrl)),
    }
}

/// Gets the path of the keypair of the "payer", the local wallet that has
/// been configured on the machine: the `keypair_path` setting of the
/// configuration text.
pub fn get_keypair_path(config_text: &str) -> (r: Result<String, Error>)
    ensures
        config_setting_holds(config_text, "keypair_path"@, InvalidConfig::MissingKeypairPath, r),
        (nesting_indicators(config_text.spec_bytes()) <= MAX_YAML_NESTING && yaml_documents(
            config_text@,
        ) is Ok && yaml_documents(config_text@)->Ok_0.len() == 1 && yaml_documents(
            config_text@,
        )->Ok_0[0].contains_key("keypair_path"@)) ==> (r matches Ok(path) && path@ == yaml_documents(
            config_text@,
        )->Ok_0[0]["keypair_path"@]),
{
    let config = parse_config(config_text)?;
    match config.keypair_path {
        Some(path) => Ok(path),
        None => Err(Error::InvalidConfig(InvalidConfig::MissingKeypairPath)),
    }
}

/// The lamports to ask an airdrop for before a transaction: what the payer
/// lacks of the requirement, or nothing when it owns enough.
pub fn airdrop_request(payer_balance: u64, balance_requirement: u64) -> (r: Option<u64>)
    ensures
        payer_balance < balance_requirement ==> r == Some((balance_requirement - payer_balance) as u64),
        payer_balance >= balance_requirement ==> r is None,
{
    if payer_balance < balance_requirement {
        Some(balance_requirement - payer_balance)
    } else {
        None
    }
}

} // verus!
