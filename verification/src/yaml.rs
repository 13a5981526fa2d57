use vstd::prelude::*;
use vstd::string::StringSliceAdditionalSpecFns;
use yaml_rust::{Yaml, YamlLoader};

verus! {

/// A YAML node, as `yaml_rust` loads it.
#[verifier::external_type_specification]
#[verifier::external_body]
pub struct ExYaml(Yaml);

/// The string settings at the top of a YAML node: for a mapping, each key
/// that is a string and whose value is a string; for any other node, none.
pub uninterp spec fn yaml_string_entries(node: Yaml) -> Map<Seq<char>, Seq<char>>;

/// The documents of a YAML text, each by its top-level string settings, or,
/// when the text does not scan as YAML, the scanner's error message.
pub uninterp spec fn yaml_documents(text: Seq<char>) -> Result<
    Seq<Map<Seq<char>, Seq<char>>>,
    Seq<char>,
>;

/// Whether the byte is one of the indicators that can open a level of YAML
/// nesting: a sequence entry `-`, a value `:`, a key `?`, or a flow
/// sequence `[` or mapping `{`. They are ASCII, so in UTF-8 text each such
/// byte is that character.
pub open spec fn is_nesting_indicator(b: u8) -> bool {
    b == 45 || b == 58 || b == 63 || b == 91 || b == 123
}

/// How many nesting indicators the bytes hold. Every collection that the
/// loader opens starts at its own indicator, so this bounds how deeply the
/// loader's recursion can go.
pub open spec fn nesting_indicators(bytes: Seq<u8>) -> nat
    decreases bytes.len(),
{
    if bytes.len() == 0 {
        0
    } else {
        nesting_indicators(bytes.drop_last()) + if is_nesting_indicator(bytes.last()) {
            1nat
        } else {
            0nat
        }
    }
}

/// The most nesting indicators a configuration text may hold. The loader
/// builds its tree by one recursive call per level of nesting, with no limit
/// of its own on indented nesting, so a deep enough text exhausts the stack.
pub const MAX_YAML_NESTING: usize = 256;

/// Counts the nesting indicators of `text`.
pub fn count_nesting_indicators(text: &str) -> (n: usize)
    ensures
        n == nesting_indicators(text.spec_bytes()),
{
    let bytes = text.as_bytes();
    let mut count: usize = 0;
    let mut i: usize = 0;
    while i < bytes.len()
        invariant
            i <= bytes@.len(),
            bytes@ == text.spec_bytes(),
            count <= i,
            count == nesting_indicators(bytes@.take(i as int)),
        decreases bytes@.len() - i,
    {
        assert(bytes@.take(i as int + 1).drop_last() =~= bytes@.take(i as int));
        let b = bytes[i];
        if b == 45 || b == 58 || b == 63 || b == 91 || b == 123 {
            count = count + 1;
        }
        i = i + 1;
    }
    assert(bytes@.take(i as int) =~= bytes@);
    count
}

/// Calls `yaml_rust::YamlLoader::load_from_str`. Claimed: it fails exactly
/// on the texts that do not scan, and otherwise gives one node per document,
/// in order; the nodes, the failure and the failure's message (as
/// `ScanError` displays it) depend on the text alone. The text may hold at
/// most `MAX_YAML_NESTING` nesting indicators, so that the loader's
/// recursion, one call per level, stays shallow.
#[verifier::external_body]
pub(crate) fn load_yaml(text: &str) -> (r: Result<Vec<Yaml>, String>)
    requires
        nesting_indicators(text.spec_bytes()) <= MAX_YAML_NESTING,
    ensures
        r is Ok <==> yaml_documents(text@) is Ok,
        r matches Ok(docs) ==> (yaml_documents(text@) matches Ok(entries) && entries
            == docs@.map_values(|d: Yaml| yaml_string_entries(d))),
        r matches Err(m) ==> (yaml_documents(text@) matches Err(msg) && msg == m@),
{
    match YamlLoader::load_from_str(text) {
        Ok(docs) => Ok(docs),
        Err(e) => Err(e.to_string()),
    }
}

/// Calls `Yaml::index` with a string key and then `Yaml::as_str` on what it
/// finds. Claimed: the result is the string that `node` maps `key` to, and
/// there is none when `node` is not a mapping, has no such key, or maps it
/// to something other than a string.
#[verifier::external_body]
pub(crate) fn yaml_str(node: &Yaml, key: &str) -> (r: Option<String>)
    ensures
        r is Some <==> yaml_string_entries(*node).contains_key(key@),
        r matches Some(s) ==> s@ == yaml_string_entries(*node)[key@],
{
    match node[key].as_str() {
        Some(s) => Some(s.to_string()),
        None => None,
    }
}

} // verus!
