use storage::layout::instruction_data;
use storage::program::{
    create, move_from, move_to, process_instruction, transfer, Account, ColorObject, ProgramError,
    NO_OBJECT, OBJECT_EXISTS,
};

const PROGRAM: [u8; 32] = [7u8; 32];

fn account(tag: u8, owner: [u8; 32], data: Vec<u8>) -> Account {
    Account { key: [tag; 32], owner, data }
}

fn instruction(entry: &str, args: &[u8]) -> Vec<u8> {
    let mut v = (entry.len() as u32).to_le_bytes().to_vec();
    v.extend_from_slice(entry.as_bytes());
    v.extend_from_slice(args);
    v
}

#[test]
fn create_stores_color_in_empty_account() {
    let mut accounts = vec![account(1, PROGRAM, vec![0, 0, 0, 0])];
    let r = process_instruction(&PROGRAM, &mut accounts, &instruction("create", &[255, 0, 10]));
    assert_eq!(r, Ok(()));
    assert_eq!(accounts[0].data, vec![1, 255, 0, 10]);
    assert_eq!(accounts[0].key, [1u8; 32]);
    assert_eq!(accounts[0].owner, PROGRAM);
}

#[test]
fn create_with_missing_components_uses_zero() {
    let mut accounts = vec![account(1, PROGRAM, vec![0, 9, 9, 9])];
    let r = process_instruction(&PROGRAM, &mut accounts, &instruction("create", &[200]));
    assert_eq!(r, Ok(()));
    assert_eq!(accounts[0].data, vec![1, 200, 0, 0]);
}

#[test]
fn create_ignores_extra_bytes() {
    let mut accounts = vec![account(1, PROGRAM, vec![0, 0, 0, 0])];
    let r = process_instruction(&PROGRAM, &mut accounts, &instruction("create", &[1, 2, 3, 4, 5]));
    assert_eq!(r, Ok(()));
    assert_eq!(accounts[0].data, vec![1, 1, 2, 3]);
}

#[test]
fn create_refuses_occupied_account() {
    let mut accounts = vec![account(1, PROGRAM, vec![1, 4, 5, 6])];
    let r = process_instruction(&PROGRAM, &mut accounts, &instruction("create", &[1, 2, 3]));
    assert_eq!(r, Err(ProgramError::Custom(17)));
    assert_eq!(OBJECT_EXISTS, 17);
    assert_eq!(accounts[0].data, vec![1, 4, 5, 6]);
}

#[test]
fn create_refuses_foreign_account() {
    let mut accounts = vec![account(1, [9u8; 32], vec![0, 0, 0, 0])];
    let r = process_instruction(&PROGRAM, &mut accounts, &instruction("create", &[1, 2, 3]));
    assert_eq!(r, Err(ProgramError::IncorrectProgramId));
    assert_eq!(accounts[0].data, vec![0, 0, 0, 0]);
}

#[test]
fn create_needs_an_account() {
    let mut accounts: Vec<Account> = Vec::new();
    let r = process_instruction(&PROGRAM, &mut accounts, &instruction("create", &[1, 2, 3]));
    assert_eq!(r, Err(ProgramError::NotEnoughAccountKeys));
}

#[test]
fn create_writes_every_entry_of_the_same_account() {
    let mut accounts = vec![
        account(1, PROGRAM, vec![0, 0, 0, 0]),
        account(2, PROGRAM, vec![0, 0, 0, 0]),
        account(1, PROGRAM, vec![0, 0, 0, 0]),
    ];
    let r = process_instruction(&PROGRAM, &mut accounts, &instruction("create", &[3, 2, 1]));
    assert_eq!(r, Ok(()));
    assert_eq!(accounts[0].data, vec![1, 3, 2, 1]);
    assert_eq!(accounts[1].data, vec![0, 0, 0, 0]);
    assert_eq!(accounts[2].data, vec![1, 3, 2, 1]);
}

#[test]
fn account_data_that_is_not_an_object_state_is_refused() {
    let mut accounts = vec![account(1, PROGRAM, vec![0, 0, 0, 0, 0])];
    let r = process_instruction(&PROGRAM, &mut accounts, &instruction("create", &[1, 2, 3]));
    assert_eq!(r, Err(ProgramError::BorshIoError("Not all bytes read".to_string())));
    let mut accounts = vec![account(1, PROGRAM, vec![2, 0, 0, 0])];
    let r = process_instruction(&PROGRAM, &mut accounts, &instruction("create", &[1, 2, 3]));
    assert_eq!(
        r,
        Err(ProgramError::BorshIoError("Invalid bool representation: 2".to_string()))
    );
    assert_eq!(accounts[0].data, vec![2, 0, 0, 0]);
    let mut accounts = vec![account(1, PROGRAM, vec![0, 0])];
    let r = process_instruction(&PROGRAM, &mut accounts, &instruction("create", &[1, 2, 3]));
    assert!(matches!(r, Err(ProgramError::BorshIoError(_))));
}

#[test]
fn unknown_or_malformed_instructions_are_refused() {
    let mut accounts = vec![account(1, PROGRAM, vec![0, 0, 0, 0])];
    for data in [
        instruction("delete", &[1, 2, 3]),
        instruction("Create", &[1, 2, 3]),
        instruction("", &[]),
        vec![6, 0, 0, 0, b'c', b'r', b'e'],
        vec![6, 0, 0],
        vec![],
        vec![2, 0, 0, 0, 0xff, 0xfe],
    ] {
        let r = process_instruction(&PROGRAM, &mut accounts, &data);
        assert_eq!(r, Err(ProgramError::InvalidInstructionData));
        assert_eq!(accounts[0].data, vec![0, 0, 0, 0]);
    }
}

#[test]
fn transfer_moves_the_object() {
    let mut accounts = vec![
        account(1, PROGRAM, vec![0, 0, 0, 0]),
        account(2, PROGRAM, vec![1, 10, 20, 30]),
    ];
    let r = process_instruction(&PROGRAM, &mut accounts, &instruction("transfer", &[]));
    assert_eq!(r, Ok(()));
    assert_eq!(accounts[0].data, vec![1, 10, 20, 30]);
    assert_eq!(accounts[1].data, vec![0, 10, 20, 30]);
}

#[test]
fn transfer_from_empty_sender_is_refused() {
    let mut accounts = vec![
        account(1, PROGRAM, vec![0, 0, 0, 0]),
        account(2, PROGRAM, vec![0, 10, 20, 30]),
    ];
    let r = process_instruction(&PROGRAM, &mut accounts, &instruction("transfer", &[]));
    assert_eq!(r, Err(ProgramError::Custom(19)));
    assert_eq!(NO_OBJECT, 19);
    assert_eq!(accounts[0].data, vec![0, 0, 0, 0]);
    assert_eq!(accounts[1].data, vec![0, 10, 20, 30]);
}

#[test]
fn transfer_to_occupied_receiver_is_refused_after_the_sender_was_emptied() {
    let mut accounts = vec![
        account(1, PROGRAM, vec![1, 1, 1, 1]),
        account(2, PROGRAM, vec![1, 10, 20, 30]),
    ];
    let r = process_instruction(&PROGRAM, &mut accounts, &instruction("transfer", &[]));
    assert_eq!(r, Err(ProgramError::Custom(17)));
    assert_eq!(accounts[0].data, vec![1, 1, 1, 1]);
    assert_eq!(accounts[1].data, vec![0, 10, 20, 30]);
}

#[test]
fn transfer_checks_accounts_in_order() {
    let foreign = [9u8; 32];
    let mut none: Vec<Account> = Vec::new();
    let r = process_instruction(&PROGRAM, &mut none, &instruction("transfer", &[]));
    assert_eq!(r, Err(ProgramError::NotEnoughAccountKeys));

    let mut one = vec![account(1, PROGRAM, vec![0, 0, 0, 0])];
    let r = process_instruction(&PROGRAM, &mut one, &instruction("transfer", &[]));
    assert_eq!(r, Err(ProgramError::NotEnoughAccountKeys));

    let mut one_foreign = vec![account(1, foreign, vec![0, 0, 0, 0])];
    let r = process_instruction(&PROGRAM, &mut one_foreign, &instruction("transfer", &[]));
    assert_eq!(r, Err(ProgramError::IncorrectProgramId));

    let mut second_foreign = vec![
        account(1, PROGRAM, vec![0, 0, 0, 0]),
        account(2, foreign, vec![1, 1, 2, 3]),
    ];
    let r = process_instruction(&PROGRAM, &mut second_foreign, &instruction("transfer", &[]));
    assert_eq!(r, Err(ProgramError::IncorrectProgramId));
    assert_eq!(second_foreign[1].data, vec![1, 1, 2, 3]);
}

#[test]
fn transfer_to_itself_leaves_the_object() {
    let mut accounts = vec![
        account(3, PROGRAM, vec![1, 7, 8, 9]),
        account(3, PROGRAM, vec![1, 7, 8, 9]),
    ];
    let r = process_instruction(&PROGRAM, &mut accounts, &instruction("transfer", &[]));
    assert_eq!(r, Ok(()));
    assert_eq!(accounts[0].data, vec![1, 7, 8, 9]);
    assert_eq!(accounts[1].data, vec![1, 7, 8, 9]);
}

#[test]
fn create_then_transfer_carries_the_color() {
    let mut accounts = vec![account(2, PROGRAM, vec![0, 0, 0, 0])];
    assert_eq!(
        process_instruction(&PROGRAM, &mut accounts, &instruction("create", &[255, 255, 0])),
        Ok(())
    );
    let mut pair = vec![account(1, PROGRAM, vec![0, 0, 0, 0]), accounts.remove(0)];
    assert_eq!(process_instruction(&PROGRAM, &mut pair, &instruction("transfer", &[])), Ok(()));
    assert_eq!(pair[0].data, vec![1, 255, 255, 0]);
    assert_eq!(pair[1].data[0], 0);
}

#[test]
fn move_to_then_move_from_gives_back_the_value() {
    let mut accounts = vec![account(1, PROGRAM, vec![0, 0, 0, 0])];
    let c = ColorObject { red: 1, green: 2, blue: 3 };
    assert_eq!(move_to(&mut accounts, 0, c), Ok(()));
    assert_eq!(move_to(&mut accounts, 0, c), Err(ProgramError::Custom(17)));
    assert_eq!(move_from(&mut accounts, 0), Ok(c));
    assert_eq!(accounts[0].data, vec![0, 1, 2, 3]);
    assert_eq!(move_from(&mut accounts, 0), Err(ProgramError::Custom(19)));
}

#[test]
fn create_and_transfer_helpers() {
    let mut accounts = vec![
        account(1, PROGRAM, vec![0, 0, 0, 0]),
        account(2, PROGRAM, vec![0, 0, 0, 0]),
    ];
    assert_eq!(create(&mut accounts, 1, 9, 8, 7), Ok(()));
    assert_eq!(transfer(&mut accounts, 0, 1), Ok(()));
    assert_eq!(accounts[0].data, vec![1, 9, 8, 7]);
    assert_eq!(accounts[1].data, vec![0, 9, 8, 7]);
}

#[test]
fn instruction_data_reads_back() {
    let data = instruction_data("create", &[1, 2, 3]).unwrap();
    assert_eq!(data, instruction("create", &[1, 2, 3]));
    assert_eq!(data, vec![6, 0, 0, 0, b'c', b'r', b'e', b'a', b't', b'e', 1, 2, 3]);
    let mut accounts = vec![account(1, PROGRAM, vec![0, 0, 0, 0])];
    assert_eq!(process_instruction(&PROGRAM, &mut accounts, &data), Ok(()));
    assert_eq!(accounts[0].data, vec![1, 1, 2, 3]);
    assert_eq!(instruction_data("transfer", &[]).unwrap().len(), 12);
}
