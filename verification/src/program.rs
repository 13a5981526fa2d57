use crate::layout::{
    borsh_read_string, decode_control, decode_record, encode_control, read_u8_or_default,
    record_bytes, record_error, string_prefix,
};
use crate::laws::{
    lemma_create_stores_the_given_bytes, lemma_transfer_between_accounts,
    lemma_transfer_instruction_bytes,
};
use vstd::prelude::*;

verus! {

/// A color: the value that the program stores in an account.
#[derive(Clone, Copy, Debug, PartialEq, Eq, Structural)]
pub struct ColorObject {
    /// The color components.
    pub red: u8,
    pub green: u8,
    pub blue: u8,
}

/// The state that an object account holds: whether it holds a value, and
/// the value (kept as it was when the account gave it away).
#[derive(Clone, Copy, Debug, PartialEq, Eq, Structural)]
pub struct ControlWrapper<T> {
    pub exists: bool,
    pub value: T,
}

/// An account handed to the program: its address, the program that owns it
/// and its data. Entries of an account list that carry the same address are
/// one account, so a write to one of them is a write to all.
#[derive(Clone, Debug, PartialEq, Eq)]
pub struct Account {
    pub key: [u8; 32],
    pub owner: [u8; 32],
    pub data: Vec<u8>,
}

/// Why the program refused an instruction.
#[derive(Clone, Debug, PartialEq, Eq)]
pub enum ProgramError {
    /// The instruction is not a known entry point.
    InvalidInstructionData,
    /// An account is not owned by the program.
    IncorrectProgramId,
    /// Fewer accounts than the instruction needs.
    NotEnoughAccountKeys,
    /// A refusal of the program's own, by its code.
    Custom(u32),
    /// Account data that does not hold an object state, with the decoder's message.
    BorshIoError(String),
}

/// The code with which `create` and `transfer` refuse an account that
/// already holds an object.
pub const OBJECT_EXISTS: u32 = 17;

/// The code with which `transfer` refuses a sender that holds no object.
pub const NO_OBJECT: u32 = 19;

/// The data of each account in the list.
pub open spec fn ledger(accounts: Seq<Account>) -> Seq<Seq<u8>> {
    Seq::new(accounts.len(), |i: int| accounts[i].data@)
}

/// Two account lists that name the same accounts, with the same owners, in
/// the same order.
pub open spec fn same_accounts(a: Seq<Account>, b: Seq<Account>) -> bool {
    &&& a.len() == b.len()
    &&& forall|i: int| 0 <= i < a.len() ==> a[i].key == b[i].key && a[i].owner == b[i].owner
}

/// The data of the accounts after `d` is written to the account `key`: every
/// entry that carries that address holds `d`.
pub open spec fn stored(accounts: Seq<Account>, data: Seq<Seq<u8>>, key: Seq<u8>, d: Seq<u8>) -> Seq<
    Seq<u8>,
> {
    Seq::new(data.len(), |i: int| if accounts[i].key@ == key { d } else { data[i] })
}

/// A refusal as the contracts speak of it: a `ProgramError`, with the
/// message of a decoding error taken by its characters.
pub enum Refusal {
    InvalidInstructionData,
    IncorrectProgramId,
    NotEnoughAccountKeys,
    Custom(u32),
    BorshIoError(Seq<char>),
}

impl View for ProgramError {
    type V = Refusal;

    open spec fn view(&self) -> Refusal {
        match self {
            ProgramError::InvalidInstructionData => Refusal::InvalidInstructionData,
            ProgramError::IncorrectProgramId => Refusal::IncorrectProgramId,
            ProgramError::NotEnoughAccountKeys => Refusal::NotEnoughAccountKeys,
            ProgramError::Custom(code) => Refusal::Custom(*code),
            ProgramError::BorshIoError(msg) => Refusal::BorshIoError(msg@),
        }
    }
}

/// A result with its error taken by its view.
pub open spec fn outcome<T>(r: Result<T, ProgramError>) -> Result<T, Refusal> {
    match r {
        Ok(v) => Ok(v),
        Err(e) => Err(e@),
    }
}

/// Moving `value` into the account at `i`, when the accounts hold `data`:
/// the result, and what the accounts hold afterwards.
pub open spec fn move_to_outcome(
    accounts: Seq<Account>,
    data: Seq<Seq<u8>>,
    i: int,
    value: ColorObject,
) -> (Result<(), Refusal>, Seq<Seq<u8>>) {
    match decode_record(data[i]) {
        None => (Err(Refusal::BorshIoError(record_error(data[i]))), data),
        Some(w) => if w.exists {
            (Err(Refusal::Custom(OBJECT_EXISTS)), data)
        } else {
            (
                Ok(()),
                stored(
                    accounts,
                    data,
                    accounts[i].key@,
                    record_bytes(ControlWrapper { exists: true, value }),
                ),
            )
        },
    }
}

/// Taking the object out of the account at `i`, when the accounts hold
/// `data`: the object or the refusal, and what the accounts hold afterwards.
pub open spec fn move_from_outcome(accounts: Seq<Account>, data: Seq<Seq<u8>>, i: int) -> (Result<
    ColorObject,
    Refusal,
>, Seq<Seq<u8>>) {
    match decode_record(data[i]) {
        None => (Err(Refusal::BorshIoError(record_error(data[i]))), data),
        Some(w) => if w.exists {
            (
                Ok(w.value),
                stored(
                    accounts,
                    data,
                    accounts[i].key@,
                    record_bytes(ControlWrapper { exists: false, value: w.value }),
                ),
            )
        } else {
            (Err(Refusal::Custom(NO_OBJECT)), data)
        },
    }
}

/// Moving the object of the account at `sender` into the account at
/// `receiver`: first out of the sender, then into the receiver.
pub open spec fn transfer_outcome(
    accounts: Seq<Account>,
    data: Seq<Seq<u8>>,
    receiver: int,
    sender: int,
) -> (Result<(), Refusal>, Seq<Seq<u8>>) {
    let (taken, after) = move_from_outcome(accounts, data, sender);
    match taken {
        Ok(value) => move_to_outcome(accounts, after, receiver, value),
        Err(e) => (Err(e), after),
    }
}

/// The byte at `i` of `s`, or `0` past its end.
pub open spec fn byte_or_zero(s: Seq<u8>, i: int) -> u8 {
    if i < s.len() {
        s[i]
    } else {
        0
    }
}

/// The color that a `create` instruction carries after its name.
pub open spec fn color_argument(rest: Seq<u8>) -> ColorObject {
    ColorObject {
        red: byte_or_zero(rest, 0),
        green: byte_or_zero(rest, 1),
        blue: byte_or_zero(rest, 2),
    }
}

/// What the program does with `input` when it is handed `accounts`: the
/// result, and what the accounts hold afterwards.
pub open spec fn instruction_outcome(program_id: Seq<u8>, accounts: Seq<Account>, input: Seq<u8>) -> (
    Result<(), Refusal>,
    Seq<Seq<u8>>,
) {
    let data = ledger(accounts);
    match string_prefix(input) {
        None => (Err(Refusal::InvalidInstructionData), data),
        Some((entry, rest)) => if entry == "create"@ {
            if accounts.len() < 1 {
                (Err(Refusal::NotEnoughAccountKeys), data)
            } else if accounts[0].owner@ != program_id {
                (Err(Refusal::IncorrectProgramId), data)
            } else {
                move_to_outcome(accounts, data, 0, color_argument(rest))
            }
        } else if entry == "transfer"@ {
            if accounts.len() < 1 {
                (Err(Refusal::NotEnoughAccountKeys), data)
            } else if accounts[0].owner@ != program_id {
                (Err(Refusal::IncorrectProgramId), data)
            } else if accounts.len() < 2 {
                (Err(Refusal::NotEnoughAccountKeys), data)
            } else if accounts[1].owner@ != program_id {
                (Err(Refusal::IncorrectProgramId), data)
            } else {
                transfer_outcome(accounts, data, 0, 1)
            }
        } else {
            (Err(Refusal::InvalidInstructionData), data)
        },
    }
}

/// Whether two addresses are the same.
fn keys_equal(a: &[u8; 32], b: &[u8; 32]) -> (r: bool)
    ensures
        r == (a@ == b@),
{
    let mut i: usize = 0;
    while i < 32
        invariant
            i <= 32,
            forall|j: int| 0 <= j < i ==> a@[j] == b@[j],
        decreases 32 - i,
    {
        if a[i] != b[i] {
            return false;
        }
        i = i + 1;
    }
    assert(a@ =~= b@);
    true
}

/// Writes `bytes` to the account `key`, in every entry that carries it.
fn store(accounts: &mut Vec<Account>, key: &[u8; 32], bytes: &Vec<u8>)
    ensures
        same_accounts(old(accounts)@, final(accounts)@),
        ledger(final(accounts)@) == stored(old(accounts)@, ledger(old(accounts)@), key@, bytes@),
{
    let n = accounts.len();
    let mut i: usize = 0;
    while i < n
        invariant
            n == old(accounts)@.len(),
            i <= n,
            same_accounts(old(accounts)@, accounts@),
            forall|j: int|
                0 <= j < i ==> accounts@[j].data@ == (if old(accounts)@[j].key@ == key@ {
                    bytes@
                } else {
                    old(accounts)@[j].data@
                }),
            forall|j: int| i <= j < n ==> accounts@[j].data@ == old(accounts)@[j].data@,
        decreases n - i,
    {
        if keys_equal(&accounts[i].key, key) {
            let copy = bytes.clone();
            assert(copy@ =~= bytes@);
            let updated = Account { key: accounts[i].key, owner: accounts[i].owner, data: copy };
            accounts.set(i, updated);
        }
        i = i + 1;
    }
    assert(ledger(accounts@) =~= stored(old(accounts)@, ledger(old(accounts)@), key@, bytes@));
}

/// Deserializes the object state of the account at `receiver`, stores
/// `value` in it and marks it as existing, then writes it back. Refuses an
/// account that already holds an object, with `Custom(OBJECT_EXISTS)`.
pub fn move_to(accounts: &mut Vec<Account>, receiver: usize, value: ColorObject) -> (r: Result<
    (),
    ProgramError,
>)
    requires
        receiver < old(accounts)@.len(),
    ensures
        same_accounts(old(accounts)@, final(accounts)@),
        outcome(r) == move_to_outcome(old(accounts)@, ledger(old(accounts)@), receiver as int, value).0,
        ledger(final(accounts)@) == move_to_outcome(
            old(accounts)@,
            ledger(old(accounts)@),
            receiver as int,
            value,
        ).1,
{
    let control = match decode_control(accounts[receiver].data.as_slice()) {
        Ok(c) => c,
        Err(e) => return Err(ProgramError::BorshIoError(e)),
    };
    assert(accounts@[receiver as int].data@ == ledger(accounts@)[receiver as int]);
    if control.exists {
        Err(ProgramError::Custom(OBJECT_EXISTS))
    } else {
        let updated = ControlWrapper { exists: true, value };
        match encode_control(&updated) {
            Ok(bytes) => {
                let key = accounts[receiver].key;
                store(accounts, &key, &bytes);
                Ok(())
            },
            Err(e) => Err(ProgramError::BorshIoError(e)),
        }
    }
}

/// Deserializes the object state of the account at `sender`, marks it as
/// no longer existing, writes it back and hands out the object. Refuses an
/// account that holds no object, with `Custom(NO_OBJECT)`.
pub fn move_from(accounts: &mut Vec<Account>, sender: usize) -> (r: Result<ColorObject, ProgramError>)
    requires
        sender < old(accounts)@.len(),
    ensures
        same_accounts(old(accounts)@, final(accounts)@),
        outcome(r) == move_from_outcome(old(accounts)@, ledger(old(accounts)@), sender as int).0,
        ledger(final(accounts)@) == move_from_outcome(
            old(accounts)@,
            ledger(old(accounts)@),
            sender as int,
        ).1,
{
    let control = match decode_control(accounts[sender].data.as_slice()) {
        Ok(c) => c,
        Err(e) => return Err(ProgramError::BorshIoError(e)),
    };
    assert(accounts@[sender as int].data@ == ledger(accounts@)[sender as int]);
    if control.exists {
        let updated = ControlWrapper { exists: false, value: control.value };
        match encode_control(&updated) {
            Ok(bytes) => {
                let key = accounts[sender].key;
                store(accounts, &key, &bytes);
                Ok(control.value)
            },
            Err(e) => Err(ProgramError::BorshIoError(e)),
        }
    } else {
        Err(ProgramError::Custom(NO_OBJECT))
    }
}

/// Creates the color object `(red, green, blue)` in the account at `sender`.
pub fn create(accounts: &mut Vec<Account>, sender: usize, red: u8, green: u8, blue: u8) -> (r: Result<
    (),
    ProgramError,
>)
    requires
        sender < old(accounts)@.len(),
    ensures
        same_accounts(old(accounts)@, final(accounts)@),
        outcome(r) == move_to_outcome(
            old(accounts)@,
            ledger(old(accounts)@),
            sender as int,
            ColorObject { red, green, blue },
        ).0,
        ledger(final(accounts)@) == move_to_outcome(
            old(accounts)@,
            ledger(old(accounts)@),
            sender as int,
            ColorObject { red, green, blue },
        ).1,
{
    move_to(accounts, sender, ColorObject { red, green, blue })
}

/// Moves the color object of the account at `sender` into the account at
/// `receiver`.
pub fn transfer(accounts: &mut Vec<Account>, receiver: usize, sender: usize) -> (r: Result<
    (),
    ProgramError,
>)
    requires
        receiver < old(accounts)@.len(),
        sender < old(accounts)@.len(),
    ensures
        same_accounts(old(accounts)@, final(accounts)@),
        outcome(r) == transfer_outcome(
            old(accounts)@,
            ledger(old(accounts)@),
            receiver as int,
            sender as int,
        ).0,
        ledger(final(accounts)@) == transfer_outcome(
            old(accounts)@,
            ledger(old(accounts)@),
            receiver as int,
            sender as int,
        ).1,
        old(accounts)@[receiver as int].key@ != old(accounts)@[sender as int].key@ ==> ((r is Ok <==> (
        old(accounts)@[sender as int].data@.len() == 4 && old(accounts)@[sender as int].data@[0] == 1
            && old(accounts)@[receiver as int].data@.len() == 4
            && old(accounts)@[receiver as int].data@[0] == 0)) && (r is Ok
            ==> final(accounts)@[receiver as int].data@ == seq![
            1u8,
            old(accounts)@[sender as int].data@[1],
            old(accounts)@[sender as int].data@[2],
            old(accounts)@[sender as int].data@[3],
        ] && final(accounts)@[sender as int].data@ == seq![
            0u8,
            old(accounts)@[sender as int].data@[1],
            old(accounts)@[sender as int].data@[2],
            old(accounts)@[sender as int].data@[3],
        ])),
{
    let r = match move_from(accounts, sender) {
        Ok(co) => move_to(accounts, receiver, co),
        Err(e) => Err(e),
    };
    proof {
        let before = old(accounts)@;
        if before[receiver as int].key@ != before[sender as int].key@ {
            lemma_transfer_between_accounts(before, ledger(before), receiver as int, sender as int);
            assert(ledger(before)[receiver as int] == before[receiver as int].data@);
            assert(ledger(before)[sender as int] == before[sender as int].data@);
            assert(ledger(accounts@)[receiver as int] == accounts@[receiver as int].data@);
            assert(ledger(accounts@)[sender as int] == accounts@[sender as int].data@);
        }
    }
    r
}

/// Whether `entry` names the entry point `name`.
fn names(entry: &String, name: &str) -> (r: bool)
    ensures
        r == (entry@ == name@),
{
    let wanted = name.to_owned();
    *entry == wanted
}

/// The steps of `process_instruction`, as the model describes them.
fn run_instruction(
    program_id: &[u8; 32],
    accounts: &mut Vec<Account>,
    instruction_data: &[u8],
) -> (r: Result<(), ProgramError>)
    ensures
        same_accounts(old(accounts)@, final(accounts)@),
        outcome(r) == instruction_outcome(program_id@, old(accounts)@, instruction_data@).0,
        ledger(final(accounts)@) == instruction_outcome(
            program_id@,
            old(accounts)@,
            instruction_data@,
        ).1,
{
    let (entry, data) = match borsh_read_string(instruction_data) {
        Some(p) => p,
        None => return Err(ProgramError::InvalidInstructionData),
    };
    if names(&entry, "create") {
        let (red, data) = read_u8_or_default(data);
        let (green, data) = read_u8_or_default(data);
        let (blue, _data) = read_u8_or_default(data);
        if accounts.len() < 1 {
            return Err(ProgramError::NotEnoughAccountKeys);
        }
        // The account must be owned by the program in order for the
        // program to write to it.
        if !keys_equal(&accounts[0].owner, program_id) {
            return Err(ProgramError::IncorrectProgramId);
        }
        create(accounts, 0, red, green, blue)
    } else if names(&entry, "transfer") {
        if accounts.len() < 1 {
            return Err(ProgramError::NotEnoughAccountKeys);
        }
        if !keys_equal(&accounts[0].owner, program_id) {
            return Err(ProgramError::IncorrectProgramId);
        }
        if accounts.len() < 2 {
            return Err(ProgramError::NotEnoughAccountKeys);
        }
        if !keys_equal(&accounts[1].owner, program_id) {
            return Err(ProgramError::IncorrectProgramId);
        }
        transfer(accounts, 0, 1)
    } else {
        Err(ProgramError::InvalidInstructionData)
    }
}


/// Processes one instruction: a borsh string that names the entry point,
/// `create` (followed by red, green and blue, each `0` when missing) or
/// `transfer`, with the accounts it works on. `create` stores the color in
/// the first account; `transfer` moves the object of the second account
/// into the first. Every account that is used must be owned by
/// `program_id`. Account data is changed as the steps go; a step that fails
/// leaves what the steps before it wrote.
///
/// On the bytes themselves: `create` (the bytes `6, 0, 0, 0, c, r, e, a,
/// t, e` and then the color) succeeds exactly when the first account is
/// owned by the program and holds four bytes starting with `0`, and then
/// holds `1` and the three color bytes (`0` for each missing). `transfer`
/// (`8, 0, 0, 0, t, r, a, n, s, f, e, r`) between two accounts with
/// different addresses succeeds exactly when both are owned by the program,
/// the second holds four bytes starting with `1` and the first four bytes
/// starting with `0`; then the first holds `1` and the second's color, and
/// the second `0` and its color.
pub fn process_instruction(
    program_id: &[u8; 32],
    accounts: &mut Vec<Account>,
    instruction_data: &[u8],
) -> (r: Result<(), ProgramError>)
    ensures
        same_accounts(old(accounts)@, final(accounts)@),
        outcome(r) == instruction_outcome(program_id@, old(accounts)@, instruction_data@).0,
        ledger(final(accounts)@) == instruction_outcome(
            program_id@,
            old(accounts)@,
            instruction_data@,
        ).1,
        instruction_data@.len() >= 10 && instruction_data@.take(10) == seq![
            6u8,
            0,
            0,
            0,
            99,
            114,
            101,
            97,
            116,
            101,
        ] ==> ((r is Ok <==> (old(accounts)@.len() >= 1 && old(accounts)@[0].owner@ == program_id@
            && old(accounts)@[0].data@.len() == 4 && old(accounts)@[0].data@[0] == 0)) && (r is Ok
            ==> final(accounts)@[0].data@ == seq![
            1u8,
            if instruction_data@.len() > 10 { instruction_data@[10] } else { 0u8 },
            if instruction_data@.len() > 11 { instruction_data@[11] } else { 0u8 },
            if instruction_data@.len() > 12 { instruction_data@[12] } else { 0u8 },
        ])),
        old(accounts)@.len() >= 2 && old(accounts)@[0].key@ != old(accounts)@[1].key@
            && instruction_data@.len() >= 12 && instruction_data@.take(12) == seq![
            8u8,
            0,
            0,
            0,
            116,
            114,
            97,
            110,
            115,
            102,
            101,
            114,
        ] ==> ((r is Ok <==> (old(accounts)@[0].owner@ == program_id@ && old(accounts)@[1].owner@
            == program_id@ && old(accounts)@[1].data@.len() == 4 && old(accounts)@[1].data@[0] == 1
            && old(accounts)@[0].data@.len() == 4 && old(accounts)@[0].data@[0] == 0)) && (r is Ok
            ==> final(accounts)@[0].data@ == seq![
            1u8,
            old(accounts)@[1].data@[1],
            old(accounts)@[1].data@[2],
            old(accounts)@[1].data@[3],
        ] && final(accounts)@[1].data@ == seq![
            0u8,
            old(accounts)@[1].data@[1],
            old(accounts)@[1].data@[2],
            old(accounts)@[1].data@[3],
        ])),
{
    let r = run_instruction(program_id, accounts, instruction_data);
    proof {
        let input = instruction_data@;
        let before = old(accounts)@;
        if input.len() >= 10 && input.take(10) == seq![6u8, 0, 0, 0, 99, 114, 101, 97, 116, 101] {
            assert(input =~= seq![6u8, 0, 0, 0, 99, 114, 101, 97, 116, 101] + input.skip(10));
            lemma_create_stores_the_given_bytes(program_id@, before, input.skip(10));
            if accounts@.len() >= 1 {
                assert(ledger(accounts@)[0] == accounts@[0].data@);
            }
        }
        if before.len() >= 2 && before[0].key@ != before[1].key@ && input.len() >= 12
            && input.take(12) == seq![8u8, 0, 0, 0, 116, 114, 97, 110, 115, 102, 101, 114] {
            assert(input =~= seq![8u8, 0, 0, 0, 116, 114, 97, 110, 115, 102, 101, 114] + input.skip(12));
            lemma_transfer_instruction_bytes(program_id@, before, input.skip(12));
            assert(ledger(accounts@)[0] == accounts@[0].data@);
            assert(ledger(accounts@)[1] == accounts@[1].data@);
        }
    }
    r
}

} // verus!
