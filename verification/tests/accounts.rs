use anchor_lang::prelude::Pubkey as SolanaPubkey;
use openbook_v2::accounts::{open_orders_seeds, AccountRef, ConsumeEvents, InitOpenOrders, SweepFees};
use openbook_v2::state::OpenBookError;

const PROGRAM: [u8; 32] = [9; 32];
const MARKET_DISC: [u8; 8] = [1, 2, 3, 4, 5, 6, 7, 8];
const QUEUE_DISC: [u8; 8] = [8, 7, 6, 5, 4, 3, 2, 1];

fn token_program() -> [u8; 32] {
    anchor_spl::token::ID.to_bytes()
}

fn loaded(key: u8, disc: [u8; 8], is_writable: bool) -> AccountRef {
    let mut data = disc.to_vec();
    data.extend_from_slice(&[0u8; 24]);
    AccountRef { key: [key; 32], owner: PROGRAM, lamports: 1_000, data, is_signer: false, is_writable, executable: false }
}

/// Token account data: 165 bytes, initialized, no optional fields.
fn token_data() -> Vec<u8> {
    let mut data = vec![0u8; 165];
    data[108] = 1;
    data
}

fn token_acc(key: u8) -> AccountRef {
    AccountRef { key: [key; 32], owner: token_program(), lamports: 2_000, data: token_data(), is_signer: false, is_writable: true, executable: false }
}

fn wallet(key: u8, is_signer: bool, is_writable: bool) -> AccountRef {
    AccountRef { key: [key; 32], owner: [0; 32], lamports: 1_000, data: vec![], is_signer, is_writable, executable: false }
}

fn program_acc(key: [u8; 32]) -> AccountRef {
    AccountRef { key, owner: [0; 32], lamports: 1, data: vec![], is_signer: false, is_writable: false, executable: true }
}

#[test]
fn consume_events_checks_owners_discriminators_mut_and_has_one() {
    let ok = ConsumeEvents {
        market: loaded(1, MARKET_DISC, true),
        market_event_queue: [2; 32],
        event_queue: loaded(2, QUEUE_DISC, true),
    };
    let check = |a: &ConsumeEvents| a.validate(&PROGRAM, &MARKET_DISC, &QUEUE_DISC);
    assert_eq!(check(&ok), Ok(()));
    let mut a = ok.clone();
    a.event_queue.owner = [8; 32];
    a.market.is_writable = false;
    assert_eq!(check(&a), Err(OpenBookError::AccountOwnedByWrongProgram));
    let mut a = ok.clone();
    a.event_queue.data = QUEUE_DISC[..4].to_vec();
    assert_eq!(check(&a), Err(OpenBookError::AccountDiscriminatorNotFound));
    let mut a = ok.clone();
    a.market.data[0] = 99;
    assert_eq!(check(&a), Err(OpenBookError::AccountDiscriminatorMismatch));
    let mut a = ok.clone();
    a.market.is_writable = false;
    assert_eq!(check(&a), Err(OpenBookError::ConstraintMut));
    let mut a = ok.clone();
    a.event_queue.key = [3; 32];
    assert_eq!(check(&a), Err(OpenBookError::ConstraintHasOne));
    let mut a = ok.clone();
    a.event_queue.is_writable = false;
    assert_eq!(check(&a), Err(OpenBookError::ConstraintMut));
}

fn sweep_fees() -> SweepFees {
    SweepFees {
        market: loaded(1, MARKET_DISC, true),
        market_admin: [4; 32],
        receiver: token_acc(5),
        admin: wallet(4, true, false),
        quote_vault: token_acc(6),
        token_program: program_acc(token_program()),
        system_program: program_acc([0; 32]),
    }
}

#[test]
fn sweep_fees_checks_accounts_in_order() {
    let ok = sweep_fees();
    let check = |a: &SweepFees| a.validate(&PROGRAM, &MARKET_DISC);
    assert_eq!(check(&ok), Ok(()));
    let mut a = ok.clone();
    a.admin.is_signer = false;
    a.market.is_writable = false;
    assert_eq!(check(&a), Err(OpenBookError::AccountNotSigner));
    let mut a = ok.clone();
    a.receiver.owner = [0; 32];
    a.receiver.lamports = 0;
    assert_eq!(check(&a), Err(OpenBookError::AccountNotInitialized));
    let mut a = ok.clone();
    a.quote_vault.owner = PROGRAM;
    assert_eq!(check(&a), Err(OpenBookError::AccountOwnedByWrongProgram));
    let mut a = ok.clone();
    a.token_program.key = [7; 32];
    a.market.is_writable = false;
    assert_eq!(check(&a), Err(OpenBookError::InvalidProgramId));
    let mut a = ok.clone();
    a.system_program.executable = false;
    assert_eq!(check(&a), Err(OpenBookError::InvalidProgramExecutable));
    let mut a = ok.clone();
    a.admin.key = [9; 32];
    assert_eq!(check(&a), Err(OpenBookError::ConstraintHasOne));
    let mut a = ok.clone();
    a.quote_vault.is_writable = false;
    assert_eq!(check(&a), Err(OpenBookError::ConstraintMut));
    let mut a = ok.clone();
    a.market.data[7] = 0;
    assert_eq!(check(&a), Err(OpenBookError::AccountDiscriminatorMismatch));
}

#[test]
fn sweep_fees_decodes_token_accounts() {
    let ok = sweep_fees();
    let check = |a: &SweepFees| a.validate(&PROGRAM, &MARKET_DISC);
    let mut a = ok.clone();
    a.receiver.data.push(0);
    assert_eq!(check(&a), Err(OpenBookError::InvalidAccountData));
    let mut a = ok.clone();
    a.receiver.data[108] = 0;
    assert_eq!(check(&a), Err(OpenBookError::UninitializedAccount));
    let mut a = ok.clone();
    a.quote_vault.data[108] = 3;
    assert_eq!(check(&a), Err(OpenBookError::InvalidAccountData));
    let mut a = ok.clone();
    a.quote_vault.data[72] = 2;
    assert_eq!(check(&a), Err(OpenBookError::InvalidAccountData));
    let mut a = ok.clone();
    a.quote_vault.data[129] = 1;
    a.quote_vault.data[108] = 2;
    assert_eq!(check(&a), Ok(()));
}

#[test]
fn open_orders_seeds_layout() {
    let seeds = open_orders_seeds(&[1; 32], &[2; 32], 0x0a0b0c0d);
    assert_eq!(seeds, vec![b"OpenOrders".to_vec(), vec![1; 32], vec![2; 32], vec![0x0d, 0x0c, 0x0b, 0x0a]]);
}

#[test]
fn init_open_orders_accepts_the_derived_address() {
    let owner = [1u8; 32];
    let market = [2u8; 32];
    let (pda, bump) = SolanaPubkey::find_program_address(
        &[b"OpenOrders", &owner, &market, &3u32.to_le_bytes()],
        &SolanaPubkey::new_from_array(PROGRAM),
    );
    let mut market_acc = loaded(0, MARKET_DISC, true);
    market_acc.key = market;
    let ok = InitOpenOrders {
        open_orders_account: AccountRef { key: pda.to_bytes(), owner: [0; 32], lamports: 0, data: vec![], is_signer: false, is_writable: true, executable: false },
        owner: AccountRef { key: owner, owner: [0; 32], lamports: 5, data: vec![], is_signer: true, is_writable: true, executable: false },
        payer: wallet(3, true, true),
        market: market_acc,
        system_program: program_acc([0; 32]),
        account_num: 3,
    };
    let check = |a: &InitOpenOrders| a.validate(&PROGRAM, &MARKET_DISC);
    assert_eq!(check(&ok), Ok(bump));
    let mut a = ok.clone();
    a.account_num = 4;
    assert_eq!(check(&a), Err(OpenBookError::ConstraintSeeds));
    let mut a = ok.clone();
    a.market.is_writable = false;
    assert_eq!(check(&a), Err(OpenBookError::ConstraintMut));
    let mut a = ok.clone();
    a.payer.is_signer = false;
    assert_eq!(check(&a), Err(OpenBookError::AccountNotSigner));
    let mut a = ok.clone();
    a.system_program.key = [5; 32];
    a.account_num = 4;
    assert_eq!(check(&a), Err(OpenBookError::InvalidProgramId));
    let mut a = ok.clone();
    a.market.owner = [5; 32];
    assert_eq!(check(&a), Err(OpenBookError::AccountOwnedByWrongProgram));
    let mut a = ok.clone();
    a.market.data = vec![];
    assert_eq!(check(&a), Err(OpenBookError::AccountDiscriminatorNotFound));
    assert_eq!(ok.check_with_address(&PROGRAM, &MARKET_DISC, None), Err(OpenBookError::ConstraintSeeds));
}
