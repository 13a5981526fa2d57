use crate::program::{ColorObject, ControlWrapper};
use borsh::{BorshDeserialize, BorshSerialize};
use vstd::prelude::*;
use vstd::string::StringSliceAdditionalSpecFns;
use vstd::utf8::{decode_utf8, encode_utf8_decode_utf8, encode_utf8_valid_utf8, valid_utf8};

verus! {

/// The bytes of an account's state: one byte for the existence flag
/// (`1` or `0`), then red, green and blue.
pub open spec fn record_bytes(w: ControlWrapper<ColorObject>) -> Seq<u8> {
    seq![if w.exists { 1u8 } else { 0u8 }, w.value.red, w.value.green, w.value.blue]
}

/// The account state that `data` holds, if it holds one: exactly four
/// bytes whose first byte is `0` or `1`.
pub open spec fn decode_record(data: Seq<u8>) -> Option<ControlWrapper<ColorObject>> {
    if data.len() == 4 && data[0] <= 1 {
        Some(
            ControlWrapper {
                exists: data[0] == 1,
                value: ColorObject { red: data[1], green: data[2], blue: data[3] },
            },
        )
    } else {
        None
    }
}

/// The decimal digits of `n`, as `Display` writes them.
pub open spec fn decimal(n: nat) -> Seq<char>
    decreases n,
{
    if n < 10 {
        seq![(48 + n) as char]
    } else {
        decimal(n / 10) + seq![(48 + n % 10) as char]
    }
}

/// The message of the error that borsh gives for `data` when it does not
/// hold an account state. The flag is read first: a missing byte is an
/// unexpected length, a byte other than `0` or `1` an invalid `bool`; then
/// the three components, which may be missing too; then any byte left over
/// is refused.
pub open spec fn record_error(data: Seq<u8>) -> Seq<char> {
    if data.len() == 0 {
        "Unexpected length of input"@
    } else if data[0] > 1 {
        "Invalid bool representation: "@ + decimal(data[0] as nat)
    } else if data.len() < 4 {
        "Unexpected length of input"@
    } else {
        "Not all bytes read"@
    }
}

/// Calls borsh's `try_from_slice` for the tuple `(bool, (u8, u8, u8))`,
/// whose layout is that of `ControlWrapper<ColorObject>`. Claimed: borsh
/// reads a `bool` from one byte that must be `0` or `1`, each `u8` from one
/// byte (a missing byte is reported as an unexpected length of input), and
/// `try_from_slice` fails unless the whole slice was read; the error's
/// message is what `record_error` says, as `io::Error` displays it.
#[verifier::external_body]
fn borsh_decode_record(data: &[u8]) -> (r: Result<(bool, (u8, u8, u8)), String>)
    ensures
        r is Ok <==> (data@.len() == 4 && data@[0] <= 1),
        r matches Ok(t) ==> t == (data@[0] == 1, (data@[1], data@[2], data@[3])),
        r matches Err(m) ==> m@ == record_error(data@),
{
    match <(bool, (u8, u8, u8))>::try_from_slice(data) {
        Ok(t) => Ok(t),
        Err(e) => Err(e.to_string()),
    }
}

/// Reads the account state held in `data`, as the program does before it
/// changes it. On failure, the message of the decoding error.
pub fn decode_control(data: &[u8]) -> (r: Result<ControlWrapper<ColorObject>, String>)
    ensures
        match decode_record(data@) {
            Some(w) => r == Ok::<ControlWrapper<ColorObject>, String>(w),
            None => r matches Err(m) && m@ == record_error(data@),
        },
{
    match borsh_decode_record(data) {
        Ok((exists, (red, green, blue))) => Ok(
            ControlWrapper { exists, value: ColorObject { red, green, blue } },
        ),
        Err(e) => Err(e),
    }
}

/// The bytes of the tuple `t` in borsh's layout.
pub open spec fn tuple_bytes(t: (bool, (u8, u8, u8))) -> Seq<u8> {
    seq![if t.0 { 1u8 } else { 0u8 }, t.1.0, t.1.1, t.1.2]
}

/// Calls borsh's `try_to_vec` for the tuple `(bool, (u8, u8, u8))`.
/// Claimed: borsh writes a `bool` as one byte, `1` or `0`, and each `u8` as
/// itself, in field order; writing into a `Vec` cannot fail.
#[verifier::external_body]
fn borsh_encode_record(t: (bool, (u8, u8, u8))) -> (r: Result<Vec<u8>, String>)
    ensures
        r is Ok,
        r matches Ok(v) ==> v@ == tuple_bytes(t),
{
    match t.try_to_vec() {
        Ok(v) => Ok(v),
        Err(e) => Err(e.to_string()),
    }
}

/// The bytes that hold the account state `w`, as the program writes them.
pub fn encode_control(w: &ControlWrapper<ColorObject>) -> (r: Result<Vec<u8>, String>)
    ensures
        r matches Ok(v) && v@ == record_bytes(*w),
{
    borsh_encode_record((w.exists, (w.value.red, w.value.green, w.value.blue)))
}

/// The number that four bytes hold in little-endian order.
pub open spec fn u32_le(b: Seq<u8>) -> int {
    b[0] + 256 * b[1] + 65536 * b[2] + 16777216 * b[3]
}

/// What borsh reads as a `String` at the start of `input`, with the bytes
/// that follow it: a four-byte little-endian length `n`, then `n` bytes that
/// must be valid UTF-8.
pub open spec fn string_prefix(input: Seq<u8>) -> Option<(Seq<char>, Seq<u8>)> {
    if input.len() < 4 {
        None
    } else {
        let n = u32_le(input);
        if input.len() < 4 + n {
            None
        } else if valid_utf8(input.subrange(4, 4 + n)) {
            Some((decode_utf8(input.subrange(4, 4 + n)), input.skip(4 + n)))
        } else {
            None
        }
    }
}

/// Calls borsh's `String::deserialize` on `input` and hands back the string
/// with the bytes that it left unread. Claimed: borsh reads a `u32` length in
/// little-endian order, then that many bytes, and fails unless all of them
/// are there and form valid UTF-8 (which `String::from_utf8` decodes).
#[verifier::external_body]
pub(crate) fn borsh_read_string(input: &[u8]) -> (r: Option<(String, &[u8])>)
    ensures
        match string_prefix(input@) {
            Some((s, rest)) => r matches Some((t, tail)) && t@ == s && tail@ == rest,
            None => r is None,
        },
{
    let mut cursor = input;
    match String::deserialize(&mut cursor) {
        Ok(s) => Some((s, cursor)),
        Err(_) => None,
    }
}

/// Calls borsh's `u8::deserialize` on `input` and hands back the byte with
/// the bytes that it left unread. Claimed: borsh reads one byte and fails
/// only when there is none.
#[verifier::external_body]
pub(crate) fn borsh_read_u8(input: &[u8]) -> (r: Option<(u8, &[u8])>)
    ensures
        input@.len() == 0 ==> r is None,
        input@.len() > 0 ==> r is Some,
        r matches Some((b, tail)) ==> b == input@[0] && tail@ == input@.skip(1),
{
    let mut cursor = input;
    match u8::deserialize(&mut cursor) {
        Ok(b) => Some((b, cursor)),
        Err(_) => None,
    }
}

/// Reads one byte as the program reads a color component: the first byte of
/// `input`, or `0` when `input` is empty, with the bytes left unread.
pub fn read_u8_or_default(input: &[u8]) -> (r: (u8, &[u8]))
    ensures
        input@.len() == 0 ==> r.0 == 0 && r.1@ == input@,
        input@.len() > 0 ==> r.0 == input@[0] && r.1@ == input@.skip(1),
{
    match borsh_read_u8(input) {
        Some((b, rest)) => (b, rest),
        None => (0, input),
    }
}

/// The four bytes of `n` in little-endian order.
pub open spec fn u32_le_bytes(n: nat) -> Seq<u8> {
    seq![
        (n % 256) as u8,
        (n / 256 % 256) as u8,
        (n / 65536 % 256) as u8,
        (n / 16777216 % 256) as u8,
    ]
}

/// Calls borsh's `try_to_vec` for a `str`. Claimed: borsh writes the byte
/// length as a little-endian `u32`, then the UTF-8 bytes, and fails only
/// when the length does not fit in a `u32`; writing into a `Vec` cannot
/// fail otherwise.
#[verifier::external_body]
fn borsh_write_string(s: &str) -> (r: Result<Vec<u8>, String>)
    ensures
        r is Ok <==> s.spec_bytes().len() <= u32::MAX,
        r matches Ok(v) ==> v@ == u32_le_bytes(s.spec_bytes().len()) + s.spec_bytes(),
{
    match BorshSerialize::try_to_vec(s) {
        Ok(v) => Ok(v),
        Err(e) => Err(e.to_string()),
    }
}

/// Reading the four little-endian bytes of a `u32` gives the number back.
pub proof fn lemma_u32_le_bytes(n: nat)
    requires
        n <= u32::MAX,
    ensures
        u32_le(u32_le_bytes(n)) == n,
        u32_le_bytes(n).len() == 4,
{
    let b = u32_le_bytes(n);
    assert(b[0] == n % 256);
    assert(b[1] == n / 256 % 256);
    assert(b[2] == n / 65536 % 256);
    assert(b[3] == n / 16777216 % 256);
    assert(n % 256 + 256 * (n / 256 % 256) + 65536 * (n / 65536 % 256) + 16777216 * (n / 16777216 % 256) == n) by (nonlinear_arith)
        requires
            n <= 0xffff_ffff,
    ;
}

/// The data of an instruction: the entry point's name as a borsh string,
/// then its arguments. Reading it back gives the name and the arguments.
/// Fails only when the name is longer than a `u32` can count.
pub fn instruction_data(entry: &str, args: &[u8]) -> (r: Result<Vec<u8>, String>)
    ensures
        r is Ok <==> entry.spec_bytes().len() <= u32::MAX,
        r matches Ok(v) ==> v@ == u32_le_bytes(entry.spec_bytes().len()) + entry.spec_bytes() + args@,
        r matches Ok(v) ==> string_prefix(v@) == Some((entry@, args@)),
{
    let mut data = borsh_write_string(entry)?;
    let mut i: usize = 0;
    while i < args.len()
        invariant
            i <= args@.len(),
            data@ == u32_le_bytes(entry.spec_bytes().len()) + entry.spec_bytes() + args@.take(i as int),
        decreases args@.len() - i,
    {
        data.push(args[i]);
        i = i + 1;
        assert(data@ =~= u32_le_bytes(entry.spec_bytes().len()) + entry.spec_bytes() + args@.take(i as int));
    }
    proof {
        let n = entry.spec_bytes().len();
        assert(args@.take(i as int) =~= args@);
        lemma_u32_le_bytes(n);
        encode_utf8_valid_utf8(entry@);
        encode_utf8_decode_utf8(entry@);
        assert(data@.take(4) =~= u32_le_bytes(n));
        assert(u32_le(data@) == u32_le(u32_le_bytes(n)));
        assert(data@.subrange(4, 4 + n as int) =~= entry.spec_bytes());
        assert(data@.skip(4 + n as int) =~= args@);
    }
    Ok(data)
}

} // verus!
