use crate::layout::{
    decode_record, lemma_u32_le_bytes, record_bytes, string_prefix, u32_le, u32_le_bytes,
};
use vstd::utf8::{
    encode_utf8, encode_utf8_decode_utf8, encode_utf8_valid_utf8, is_ascii_chars,
    is_ascii_chars_encode_utf8,
};
use crate::program::{
    color_argument, instruction_outcome, ledger, move_from_outcome, move_to_outcome, stored,
    transfer_outcome, Account, ColorObject, ControlWrapper, Refusal, NO_OBJECT, OBJECT_EXISTS,
};
use crate::client::{config_parsed, config_setting_holds, CliConfig, Error, InvalidConfig};
use crate::yaml::{nesting_indicators, yaml_documents, MAX_YAML_NESTING};
use vstd::prelude::*;
use vstd::string::StringSliceAdditionalSpecFns;

verus! {

/// The bytes written for an object state read back as that state, and the
/// bytes that read as a state are the bytes written for it.
pub proof fn lemma_record_roundtrip(w: ControlWrapper<ColorObject>, data: Seq<u8>)
    ensures
        decode_record(record_bytes(w)) == Some(w),
        decode_record(data) matches Some(v) ==> record_bytes(v) == data,
{
    if let Some(v) = decode_record(data) {
        assert(record_bytes(v) =~= data);
    }
}

/// Every object state takes four bytes, whatever it holds.
pub proof fn lemma_record_size(w: ControlWrapper<ColorObject>)
    ensures
        record_bytes(w).len() == 4,
{
}

/// What `move_from` takes out of an account is what `move_to` put in, and
/// the account is then marked empty with the value kept.
pub proof fn lemma_move_to_then_from(
    accounts: Seq<Account>,
    data: Seq<Seq<u8>>,
    i: int,
    value: ColorObject,
)
    requires
        0 <= i < accounts.len(),
        data.len() == accounts.len(),
        move_to_outcome(accounts, data, i, value).0 is Ok,
    ensures
        ({
            let after = move_to_outcome(accounts, data, i, value).1;
            move_from_outcome(accounts, after, i) == (
                Ok::<ColorObject, Refusal>(value),
                stored(
                    accounts,
                    after,
                    accounts[i].key@,
                    record_bytes(ControlWrapper { exists: false, value }),
                ),
            )
        }),
{
    let w = ControlWrapper { exists: true, value };
    lemma_record_roundtrip(w, record_bytes(w));
}

/// A refused `move_to` changes no account: it is refused when the account
/// data holds no object state, or holds an object already.
pub proof fn lemma_move_to_refusal(
    accounts: Seq<Account>,
    data: Seq<Seq<u8>>,
    i: int,
    value: ColorObject,
)
    requires
        0 <= i < accounts.len(),
    ensures
        move_to_outcome(accounts, data, i, value).0 is Err ==> move_to_outcome(
            accounts,
            data,
            i,
            value,
        ).1 == data,
        decode_record(data[i]) matches Some(w) && w.exists ==> move_to_outcome(
            accounts,
            data,
            i,
            value,
        ).0 == Err::<(), Refusal>(Refusal::Custom(OBJECT_EXISTS)),
{
}

/// A refused `move_from` changes no account: it is refused when the account
/// data holds no object state, or holds no object.
pub proof fn lemma_move_from_refusal(accounts: Seq<Account>, data: Seq<Seq<u8>>, i: int)
    requires
        0 <= i < accounts.len(),
    ensures
        move_from_outcome(accounts, data, i).0 is Err ==> move_from_outcome(accounts, data, i).1
            == data,
        decode_record(data[i]) matches Some(w) && !w.exists ==> move_from_outcome(
            accounts,
            data,
            i,
        ).0 == Err::<ColorObject, Refusal>(Refusal::Custom(NO_OBJECT)),
{
}

/// A transfer between two accounts that succeeds moves the sender's object
/// into the receiver: afterwards the receiver holds it, the sender holds it
/// no more (its value kept), and no other account has changed.
pub proof fn lemma_transfer_moves_object(
    accounts: Seq<Account>,
    data: Seq<Seq<u8>>,
    receiver: int,
    sender: int,
)
    requires
        0 <= receiver < accounts.len(),
        0 <= sender < accounts.len(),
        data.len() == accounts.len(),
        accounts[receiver].key@ != accounts[sender].key@,
        transfer_outcome(accounts, data, receiver, sender).0 is Ok,
    ensures
        decode_record(data[sender]) matches Some(w) && w.exists && ({
            let after = transfer_outcome(accounts, data, receiver, sender).1;
            &&& decode_record(data[receiver]) matches Some(v) && !v.exists
            &&& decode_record(after[receiver]) == Some(ControlWrapper { exists: true, value: w.value })
            &&& decode_record(after[sender]) == Some(ControlWrapper { exists: false, value: w.value })
            &&& forall|j: int|
                0 <= j < accounts.len() && accounts[j].key@ != accounts[receiver].key@
                    && accounts[j].key@ != accounts[sender].key@ ==> after[j] == data[j]
        }),
{
    let w = decode_record(data[sender]).unwrap();
    let mid = move_from_outcome(accounts, data, sender).1;
    let gone = ControlWrapper { exists: false, value: w.value };
    let here = ControlWrapper { exists: true, value: w.value };
    lemma_record_roundtrip(gone, record_bytes(gone));
    lemma_record_roundtrip(here, record_bytes(here));
    assert(mid[receiver] == data[receiver]);
}

/// A transfer from an account to itself, named twice, leaves the object in
/// place: the account holds what it held.
pub proof fn lemma_transfer_to_itself(
    accounts: Seq<Account>,
    data: Seq<Seq<u8>>,
    receiver: int,
    sender: int,
)
    requires
        0 <= receiver < accounts.len(),
        0 <= sender < accounts.len(),
        data.len() == accounts.len(),
        accounts[receiver].key@ == accounts[sender].key@,
        data[receiver] == data[sender],
        decode_record(data[sender]) matches Some(w) && w.exists,
    ensures
        transfer_outcome(accounts, data, receiver, sender).0 is Ok,
        transfer_outcome(accounts, data, receiver, sender).1 == stored(
            accounts,
            data,
            accounts[sender].key@,
            data[sender],
        ),
{
    let w = decode_record(data[sender]).unwrap();
    let gone = ControlWrapper { exists: false, value: w.value };
    let here = ControlWrapper { exists: true, value: w.value };
    lemma_record_roundtrip(gone, record_bytes(gone));
    lemma_record_roundtrip(w, data[sender]);
    assert(here == w);
    let mid = move_from_outcome(accounts, data, sender).1;
    assert(mid[receiver] == record_bytes(gone));
    let fin = transfer_outcome(accounts, data, receiver, sender).1;
    assert(fin =~= stored(accounts, data, accounts[sender].key@, data[sender]));
}

/// A `create` instruction that succeeds leaves the first account holding,
/// as an existing object, the color that the instruction carries, and
/// changes no account with another address.
pub proof fn lemma_create_instruction(program_id: Seq<u8>, accounts: Seq<Account>, input: Seq<u8>)
    requires
        string_prefix(input) matches Some((entry, rest)) && entry == "create"@,
        instruction_outcome(program_id, accounts, input).0 is Ok,
    ensures
        ({
            let rest = string_prefix(input).unwrap().1;
            let after = instruction_outcome(program_id, accounts, input).1;
            &&& accounts.len() >= 1
            &&& accounts[0].owner@ == program_id
            &&& decode_record(after[0]) == Some(
                ControlWrapper { exists: true, value: color_argument(rest) },
            )
            &&& forall|j: int|
                0 <= j < accounts.len() && accounts[j].key@ != accounts[0].key@ ==> after[j]
                    == ledger(accounts)[j]
        }),
{
    let rest = string_prefix(input).unwrap().1;
    let w = ControlWrapper { exists: true, value: color_argument(rest) };
    lemma_record_roundtrip(w, record_bytes(w));
}

/// A `transfer` instruction between two accounts that succeeds moves the
/// object of the second account into the first: afterwards the first holds
/// it, the second holds it no more, and no other account has changed.
pub proof fn lemma_transfer_instruction(program_id: Seq<u8>, accounts: Seq<Account>, input: Seq<u8>)
    requires
        string_prefix(input) matches Some((entry, rest)) && entry == "transfer"@,
        accounts.len() >= 2,
        accounts[0].key@ != accounts[1].key@,
        instruction_outcome(program_id, accounts, input).0 is Ok,
    ensures
        decode_record(accounts[1].data@) matches Some(w) && w.exists && ({
            let after = instruction_outcome(program_id, accounts, input).1;
            &&& accounts[0].owner@ == program_id
            &&& accounts[1].owner@ == program_id
            &&& decode_record(after[0]) == Some(ControlWrapper { exists: true, value: w.value })
            &&& decode_record(after[1]) == Some(ControlWrapper { exists: false, value: w.value })
            &&& forall|j: int|
                0 <= j < accounts.len() && accounts[j].key@ != accounts[0].key@
                    && accounts[j].key@ != accounts[1].key@ ==> after[j] == accounts[j].data@
        }),
{
    reveal_strlit("create");
    reveal_strlit("transfer");
    assert("create"@.len() != "transfer"@.len());
    let data = ledger(accounts);
    assert(data[1] == accounts[1].data@);
    lemma_transfer_moves_object(accounts, data, 0, 1);
}

/// An instruction whose name is ASCII reads back as that name, followed by
/// the bytes after it.
proof fn lemma_ascii_entry(name: Seq<char>, bytes: Seq<u8>, args: Seq<u8>)
    requires
        is_ascii_chars(name),
        bytes.len() == name.len(),
        bytes.len() <= u32::MAX,
        forall|i: int| 0 <= i < bytes.len() ==> bytes[i] == name[i] as u8,
    ensures
        string_prefix(u32_le_bytes(bytes.len()) + bytes + args) == Some((name, args)),
{
    is_ascii_chars_encode_utf8(name);
    assert(encode_utf8(name) =~= bytes);
    encode_utf8_valid_utf8(name);
    encode_utf8_decode_utf8(name);
    lemma_u32_le_bytes(bytes.len());
    let input = u32_le_bytes(bytes.len()) + bytes + args;
    let n = bytes.len() as int;
    assert(u32_le(input) == u32_le(u32_le_bytes(bytes.len())));
    assert(input.subrange(4, 4 + n) =~= bytes);
    assert(input.skip(4 + n) =~= args);
}

/// The bytes `6, 0, 0, 0, c, r, e, a, t, e`, followed by `args`, read as the
/// entry name `create` followed by `args`.
proof fn lemma_create_entry(args: Seq<u8>)
    ensures
        string_prefix(seq![6u8, 0, 0, 0, 99, 114, 101, 97, 116, 101] + args) == Some(("create"@, args)),
{
    reveal_strlit("create");
    let bytes = seq![99u8, 114, 101, 97, 116, 101];
    assert(is_ascii_chars("create"@));
    lemma_ascii_entry("create"@, bytes, args);
    assert(u32_le_bytes(6) =~= seq![6u8, 0, 0, 0]);
    assert(seq![6u8, 0, 0, 0, 99, 114, 101, 97, 116, 101] + args =~= u32_le_bytes(bytes.len())
        + bytes + args);
}

/// The bytes `8, 0, 0, 0, t, r, a, n, s, f, e, r`, followed by `args`, read
/// as the entry name `transfer` followed by `args`.
proof fn lemma_transfer_entry(args: Seq<u8>)
    ensures
        string_prefix(seq![8u8, 0, 0, 0, 116, 114, 97, 110, 115, 102, 101, 114] + args) == Some(
            ("transfer"@, args),
        ),
{
    reveal_strlit("transfer");
    let bytes = seq![116u8, 114, 97, 110, 115, 102, 101, 114];
    assert(is_ascii_chars("transfer"@));
    lemma_ascii_entry("transfer"@, bytes, args);
    assert(u32_le_bytes(8) =~= seq![8u8, 0, 0, 0]);
    assert(seq![8u8, 0, 0, 0, 116, 114, 97, 110, 115, 102, 101, 114] + args =~= u32_le_bytes(
        bytes.len(),
    ) + bytes + args);
}

/// A `create` instruction, the name followed by the color bytes, succeeds
/// exactly when the first account is owned by the program and its data is
/// four bytes starting with `0` (no object). Then the first account's data
/// becomes `1` followed by the first three bytes after the name, each `0`
/// when missing, whatever their values.
pub proof fn lemma_create_stores_the_given_bytes(
    program_id: Seq<u8>,
    accounts: Seq<Account>,
    args: Seq<u8>,
)
    ensures
        ({
            let input = seq![6u8, 0, 0, 0, 99, 114, 101, 97, 116, 101] + args;
            let out = instruction_outcome(program_id, accounts, input);
            &&& out.0 is Ok <==> (accounts.len() >= 1 && accounts[0].owner@ == program_id
                && accounts[0].data@.len() == 4 && accounts[0].data@[0] == 0)
            &&& out.0 is Ok ==> out.1[0] == seq![
                1u8,
                if args.len() > 0 { args[0] } else { 0u8 },
                if args.len() > 1 { args[1] } else { 0u8 },
                if args.len() > 2 { args[2] } else { 0u8 },
            ]
        }),
{
    lemma_create_entry(args);
    let input = seq![6u8, 0, 0, 0, 99, 114, 101, 97, 116, 101] + args;
    let out = instruction_outcome(program_id, accounts, input);
    if accounts.len() >= 1 && accounts[0].owner@ == program_id {
        let data = ledger(accounts);
        assert(data[0] == accounts[0].data@);
        if out.0 is Ok {
            assert(out.1[0] =~= seq![
                1u8,
                if args.len() > 0 { args[0] } else { 0u8 },
                if args.len() > 1 { args[1] } else { 0u8 },
                if args.len() > 2 { args[2] } else { 0u8 },
            ]);
        }
    }
}

/// A transfer between accounts with different addresses succeeds exactly
/// when the sender's data is four bytes starting with `1` (it holds an
/// object) and the receiver's is four bytes starting with `0` (it holds
/// none, whatever value it kept). Then the receiver's data becomes `1`
/// followed by the sender's color, and the sender's becomes `0` followed by
/// that same color.
pub proof fn lemma_transfer_between_accounts(
    accounts: Seq<Account>,
    data: Seq<Seq<u8>>,
    receiver: int,
    sender: int,
)
    requires
        0 <= receiver < accounts.len(),
        0 <= sender < accounts.len(),
        data.len() == accounts.len(),
        accounts[receiver].key@ != accounts[sender].key@,
    ensures
        ({
            let out = transfer_outcome(accounts, data, receiver, sender);
            &&& out.0 is Ok <==> (data[sender].len() == 4 && data[sender][0] == 1
                && data[receiver].len() == 4 && data[receiver][0] == 0)
            &&& out.0 is Ok ==> out.1[receiver] == seq![
                1u8,
                data[sender][1],
                data[sender][2],
                data[sender][3],
            ]
            &&& out.0 is Ok ==> out.1[sender] == seq![
                0u8,
                data[sender][1],
                data[sender][2],
                data[sender][3],
            ]
        }),
{
    let out = transfer_outcome(accounts, data, receiver, sender);
    let mid = move_from_outcome(accounts, data, sender).1;
    if data[sender].len() == 4 && data[sender][0] == 1 {
        assert(mid[receiver] == data[receiver]);
        assert(mid[sender] =~= seq![0u8, data[sender][1], data[sender][2], data[sender][3]]);
        if data[receiver].len() == 4 && data[receiver][0] == 0 {
            assert(out.1[receiver] =~= seq![
                1u8,
                data[sender][1],
                data[sender][2],
                data[sender][3],
            ]);
            assert(out.1[sender] == mid[sender]);
        }
    }
}

/// A `transfer` instruction between two accounts with different addresses
/// succeeds exactly when both are owned by the program, the second (the
/// sender) holds an object and the first (the receiver) holds none. Then
/// the first account holds the sender's color as an object, and the second
/// keeps the color but no longer holds it.
pub proof fn lemma_transfer_instruction_bytes(
    program_id: Seq<u8>,
    accounts: Seq<Account>,
    args: Seq<u8>,
)
    requires
        accounts.len() >= 2,
        accounts[0].key@ != accounts[1].key@,
    ensures
        ({
            let input = seq![8u8, 0, 0, 0, 116, 114, 97, 110, 115, 102, 101, 114] + args;
            let out = instruction_outcome(program_id, accounts, input);
            let s = accounts[1].data@;
            let r = accounts[0].data@;
            &&& out.0 is Ok <==> (accounts[0].owner@ == program_id && accounts[1].owner@
                == program_id && s.len() == 4 && s[0] == 1 && r.len() == 4 && r[0] == 0)
            &&& out.0 is Ok ==> out.1[0] == seq![1u8, s[1], s[2], s[3]]
            &&& out.0 is Ok ==> out.1[1] == seq![0u8, s[1], s[2], s[3]]
        }),
{
    lemma_transfer_entry(args);
    reveal_strlit("create");
    reveal_strlit("transfer");
    assert("create"@.len() != "transfer"@.len());
    let data = ledger(accounts);
    assert(data[0] == accounts[0].data@);
    assert(data[1] == accounts[1].data@);
    lemma_transfer_between_accounts(accounts, data, 0, 1);
}

/// What `get_rpc_url` answers for a configuration within the nesting limit
/// that scans as exactly one document: the document's `json_rpc_url`
/// string, whatever it is, or a missing setting when there is none.
pub proof fn lemma_rpc_url_is_the_setting(text: &str, r: Result<String, Error>)
    requires
        config_setting_holds(text, "json_rpc_url"@, InvalidConfig::MissingJsonRpcUrl, r),
        nesting_indicators(text.spec_bytes()) <= MAX_YAML_NESTING,
        yaml_documents(text@) is Ok,
        yaml_documents(text@)->Ok_0.len() == 1,
    ensures
        yaml_documents(text@)->Ok_0[0].contains_key("json_rpc_url"@) ==> (r matches Ok(url) && url@
            == yaml_documents(text@)->Ok_0[0]["json_rpc_url"@]),
        !yaml_documents(text@)->Ok_0[0].contains_key("json_rpc_url"@) ==> r == Err::<String, Error>(
            Error::InvalidConfig(InvalidConfig::MissingJsonRpcUrl),
        ),
{
}

/// What `get_keypair_path` answers for a configuration within the nesting
/// limit that scans as exactly one document: the document's `keypair_path`
/// string, whatever it is, or a missing setting when there is none.
pub proof fn lemma_keypair_path_is_the_setting(text: &str, r: Result<String, Error>)
    requires
        config_setting_holds(text, "keypair_path"@, InvalidConfig::MissingKeypairPath, r),
        nesting_indicators(text.spec_bytes()) <= MAX_YAML_NESTING,
        yaml_documents(text@) is Ok,
        yaml_documents(text@)->Ok_0.len() == 1,
    ensures
        yaml_documents(text@)->Ok_0[0].contains_key("keypair_path"@) ==> (r matches Ok(path) && path@
            == yaml_documents(text@)->Ok_0[0]["keypair_path"@]),
        !yaml_documents(text@)->Ok_0[0].contains_key("keypair_path"@) ==> r == Err::<String, Error>(
            Error::InvalidConfig(InvalidConfig::MissingKeypairPath),
        ),
{
}

/// What `parse_config` answers for a configuration within the nesting limit
/// that scans as exactly one document: both settings as the document holds
/// them, each present exactly when the document has it as a string,
/// whatever its length or content.
pub proof fn lemma_config_holds_the_settings(text: &str, r: Result<CliConfig, Error>)
    requires
        config_parsed(text, r),
        nesting_indicators(text.spec_bytes()) <= MAX_YAML_NESTING,
        yaml_documents(text@) is Ok,
        yaml_documents(text@)->Ok_0.len() == 1,
    ensures
        ({
            let settings = yaml_documents(text@)->Ok_0[0];
            &&& r is Ok
            &&& r->Ok_0.json_rpc_url is Some <==> settings.contains_key("json_rpc_url"@)
            &&& r->Ok_0.json_rpc_url matches Some(url) ==> url@ == settings["json_rpc_url"@]
            &&& r->Ok_0.keypair_path is Some <==> settings.contains_key("keypair_path"@)
            &&& r->Ok_0.keypair_path matches Some(path) ==> path@ == settings["keypair_path"@]
        }),
{
}

} // verus!
