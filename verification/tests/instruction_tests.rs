use pinocchio_fundraiser::accounts::TokenAccountState;
use pinocchio_fundraiser::constants::{FUNDRAISER_SEED, PROGRAM_ID};
use pinocchio_fundraiser::error::FundraiserError;
use pinocchio_fundraiser::instructions::checker::{is_target_met, load_checker, settle_checker};
use pinocchio_fundraiser::instructions::contribute::{
    apply_contribution, check_contribute, record_contribution, ContributeData,
};
use pinocchio_fundraiser::instructions::initialize::{
    check_fundraiser_address, check_initialize, check_initialize_data, initialize_fundraiser_account,
    InitializeData,
};
use pinocchio_fundraiser::instructions::refund::{check_refund_ata, settle_refund};
use pinocchio_fundraiser::instructions::{decode_instruction, reclaim_lamports, FundraiserInstructions};
use pinocchio_fundraiser::state::contributor::Contributor;
use pinocchio_fundraiser::state::fundraiser::{Fundraiser, FUNDRAISER_LEN};

const MAKER: [u8; 32] = [11; 32];
const USER: [u8; 32] = [12; 32];
const MINT: [u8; 32] = [13; 32];
const DAY: i64 = 86_400;
const START: i64 = 1_700_000_000;

fn init_payload(bump: u8, amount: u64, duration: u8) -> Vec<u8> {
    let mut p = vec![bump];
    p.extend_from_slice(&amount.to_le_bytes());
    p.push(duration);
    p
}

fn contribute_payload(amount: u64, bump: u8) -> Vec<u8> {
    let mut p = amount.to_le_bytes().to_vec();
    p.push(bump);
    p
}

fn fundraiser_with(target: u64, current: u64) -> Fundraiser {
    Fundraiser {
        maker: MAKER,
        mint_to_raise: MINT,
        amount_to_raise: target.to_le_bytes(),
        current_amount: current.to_le_bytes(),
        time_started: START.to_le_bytes(),
        duration: 30,
        bump: 250,
    }
}

fn token(mint: [u8; 32], owner: [u8; 32], amount: u64) -> TokenAccountState {
    TokenAccountState { mint, owner, amount }
}

fn pda(key: &[u8; 32], bump: u8) -> [u8; 32] {
    pinocchio_pubkey::derive_address_const(&[&FUNDRAISER_SEED[..], &key[..], &[bump]], None, &PROGRAM_ID)
}

#[test]
fn program_id_is_the_declared_address() {
    assert_eq!(PROGRAM_ID, pinocchio_pubkey::from_str("7dTBf2CHGabKL715FsRHyJqjQxVsMWVLYL51FknB1FKf"));
    assert_eq!(&FUNDRAISER_SEED, b"fundraiser");
}

#[test]
fn decode_instruction_by_first_byte() {
    assert_eq!(decode_instruction(&PROGRAM_ID, &[0, 5]), Ok(FundraiserInstructions::Initialize));
    assert_eq!(decode_instruction(&PROGRAM_ID, &[1]), Ok(FundraiserInstructions::Contribute));
    assert_eq!(decode_instruction(&PROGRAM_ID, &[2]), Ok(FundraiserInstructions::Checker));
    assert_eq!(decode_instruction(&PROGRAM_ID, &[3]), Ok(FundraiserInstructions::Refund));
    assert_eq!(decode_instruction(&PROGRAM_ID, &[4]), Err(FundraiserError::InvalidInstructionData));
    assert_eq!(decode_instruction(&PROGRAM_ID, &[]), Err(FundraiserError::InvalidInstructionData));
    assert_eq!(decode_instruction(&[0; 32], &[0]), Err(FundraiserError::ProgramIdMismatch));
}

#[test]
fn try_from_and_discriminator_agree() {
    for ix in [
        FundraiserInstructions::Initialize,
        FundraiserInstructions::Contribute,
        FundraiserInstructions::Checker,
        FundraiserInstructions::Refund,
    ] {
        assert_eq!(FundraiserInstructions::try_from(&ix.discriminator()), Ok(ix));
    }
    assert_eq!(FundraiserInstructions::try_from(&255), Err(FundraiserError::InvalidInstructionData));
}

#[test]
fn account_counts() {
    assert_eq!(FundraiserInstructions::Initialize.check_account_count(5), Err(FundraiserError::NotEnoughAccountKeys));
    assert_eq!(FundraiserInstructions::Initialize.check_account_count(6), Ok(()));
    assert_eq!(FundraiserInstructions::Contribute.check_account_count(7), Err(FundraiserError::NotEnoughAccountKeys));
    assert_eq!(FundraiserInstructions::Contribute.check_account_count(9), Ok(()));
    assert_eq!(FundraiserInstructions::Checker.check_account_count(6), Err(FundraiserError::NotEnoughAccountKeys));
    assert_eq!(FundraiserInstructions::Checker.check_account_count(7), Ok(()));
    assert_eq!(FundraiserInstructions::Refund.check_account_count(8), Ok(()));
}

#[test]
fn initialize_data_checks() {
    let payload = init_payload(254, 500_000_000, 30);
    let data = check_initialize_data(&payload, Ok(6)).unwrap();
    assert_eq!(data, InitializeData { bump: 254, amount_to_raise: 500_000_000u64.to_le_bytes(), duration: 30 });
    assert_eq!(check_initialize_data(&payload[..9], Ok(6)), Err(FundraiserError::InvalidInstructionData));
    assert_eq!(check_initialize_data(&payload, Err(FundraiserError::Runtime(7))), Err(FundraiserError::Runtime(7)));
    // 3^6 = 729: the target must exceed it.
    assert_eq!(check_initialize_data(&init_payload(1, 729, 30), Ok(6)), Err(FundraiserError::AmountBelowMinimum));
    assert!(check_initialize_data(&init_payload(1, 730, 30), Ok(6)).is_ok());
    assert_eq!(check_initialize_data(&payload, Ok(41)), Err(FundraiserError::ArithmeticOverflow));
}

#[test]
fn initialize_checks_the_fundraiser_address() {
    let payload = init_payload(254, 500_000_000, 30);
    let address = pda(&MAKER, 254);
    assert!(check_initialize(&payload, Ok(6), &MAKER, &address, false).is_ok());
    assert_eq!(check_initialize(&payload, Ok(6), &MAKER, &address, true), Err(FundraiserError::IllegalOwner));
    assert_eq!(
        check_initialize(&payload, Ok(6), &MAKER, &MAKER, false),
        Err(FundraiserError::FundraiserAddressMismatch(address))
    );
    assert_eq!(
        check_initialize(&payload, Ok(6), &MAKER, &pda(&MAKER, 253), false),
        Err(FundraiserError::FundraiserAddressMismatch(address))
    );
    assert_eq!(
        FundraiserError::FundraiserAddressMismatch(address).abort_message(),
        "assertion `left == right` failed"
    );
    assert_eq!(check_fundraiser_address(&address, &address, false), Ok(()));
}

#[test]
fn initialize_writes_the_fundraiser() {
    let data = InitializeData { bump: 254, amount_to_raise: 500_000_000u64.to_le_bytes(), duration: 30 };
    let zeros = [0u8; FUNDRAISER_LEN];
    let f = initialize_fundraiser_account(&zeros, &MAKER, &MINT, &data, Ok(START)).unwrap();
    assert_eq!(f.maker, MAKER);
    assert_eq!(f.mint_to_raise, MINT);
    assert_eq!(f.amount_to_raise, 500_000_000u64.to_le_bytes());
    assert_eq!(f.current_amount, [0; 8]);
    assert_eq!(f.time_started, START.to_le_bytes());
    assert_eq!(f.duration, 30);
    assert_eq!(f.bump, 254);
    let before_epoch = initialize_fundraiser_account(&zeros, &MAKER, &MINT, &data, Ok(-5)).unwrap();
    assert_eq!(before_epoch.time_started, (-5i64).to_le_bytes());
    assert_eq!(
        initialize_fundraiser_account(&zeros[..89], &MAKER, &MINT, &data, Ok(START)),
        Err(FundraiserError::InvalidAccountData)
    );
    assert_eq!(
        initialize_fundraiser_account(&zeros, &MAKER, &MINT, &data, Err(FundraiserError::Runtime(3))),
        Err(FundraiserError::Runtime(3))
    );
}

#[test]
fn contribute_first_checks() {
    let payload = contribute_payload(200_000_000, 252);
    let ata = token(MINT, USER, 1_000);
    let plan = check_contribute(&payload, Ok(6), Ok(ata), &USER, &MINT, false).unwrap();
    assert_eq!(plan.data, ContributeData { amount: 200_000_000u64.to_le_bytes(), bump: 252 });
    assert!(plan.create_contributor);
    assert!(!check_contribute(&payload, Ok(6), Ok(ata), &USER, &MINT, true).unwrap().create_contributor);
    assert_eq!(check_contribute(&payload[..8], Ok(6), Ok(ata), &USER, &MINT, false), Err(FundraiserError::InvalidInstructionData));
    assert_eq!(
        check_contribute(&contribute_payload(1, 0), Ok(6), Ok(ata), &USER, &MINT, false),
        Err(FundraiserError::ContributionTooSmall)
    );
    assert_eq!(
        check_contribute(&payload, Ok(6), Ok(token(MINT, MAKER, 0)), &USER, &MINT, false),
        Err(FundraiserError::InvalidAccountData)
    );
    assert_eq!(
        check_contribute(&payload, Ok(6), Ok(token(MAKER, USER, 0)), &USER, &MINT, false),
        Err(FundraiserError::InvalidAccountData)
    );
    assert_eq!(
        check_contribute(&payload, Ok(6), Err(FundraiserError::Runtime(9)), &USER, &MINT, false),
        Err(FundraiserError::Runtime(9))
    );
    assert_eq!(
        check_contribute(&payload, Err(FundraiserError::Runtime(8)), Ok(ata), &USER, &MINT, false),
        Err(FundraiserError::Runtime(8))
    );
}

#[test]
fn contribution_is_capped_at_half_the_target() {
    let f = fundraiser_with(500_000_000, 0);
    let fresh = Contributor { amount: [0; 8], bump: 252 };
    let data = ContributeData { amount: 250_000_001u64.to_le_bytes(), bump: 252 };
    assert_eq!(apply_contribution(&data, &f, &fresh, Ok(START + DAY)), Err(FundraiserError::ContributionTooBig));
    let data = ContributeData { amount: 200_000_000u64.to_le_bytes(), bump: 252 };
    let u = apply_contribution(&data, &f, &fresh, Ok(START + DAY)).unwrap();
    assert_eq!(u.fundraiser.current_amount, 200_000_000u64.to_le_bytes());
    assert_eq!(u.contributor.amount, 200_000_000u64.to_le_bytes());
    assert_eq!(u.transfer_amount, 200_000_000);
    let more = ContributeData { amount: 50_000_001u64.to_le_bytes(), bump: 252 };
    assert_eq!(
        apply_contribution(&more, &u.fundraiser, &u.contributor, Ok(START + DAY)),
        Err(FundraiserError::MaximumContributionReached)
    );
    let last = ContributeData { amount: 50_000_000u64.to_le_bytes(), bump: 252 };
    let full = apply_contribution(&last, &u.fundraiser, &u.contributor, Ok(START + DAY)).unwrap();
    assert_eq!(full.contributor.amount, 250_000_000u64.to_le_bytes());
}

#[test]
fn two_contributions_add_up() {
    let f = fundraiser_with(500_000_000, 0);
    let fresh = Contributor { amount: [0; 8], bump: 252 };
    let data = ContributeData { amount: 100_000_000u64.to_le_bytes(), bump: 252 };
    let first = record_contribution(&data, &f.to_bytes(), &fresh.to_bytes(), Ok(START + DAY)).unwrap();
    let second = record_contribution(
        &data,
        &first.fundraiser.to_bytes(),
        &first.contributor.to_bytes(),
        Ok(START + 2 * DAY),
    )
    .unwrap();
    assert_eq!(second.fundraiser.current_amount, 200_000_000u64.to_le_bytes());
    assert_eq!(second.contributor.amount, 200_000_000u64.to_le_bytes());
    assert_eq!(second.transfer_amount, 100_000_000);
}

#[test]
fn contribution_after_the_duration_is_refused() {
    let f = fundraiser_with(500_000_000, 0);
    let fresh = Contributor { amount: [0; 8], bump: 1 };
    let data = ContributeData { amount: 1_000u64.to_le_bytes(), bump: 1 };
    assert!(apply_contribution(&data, &f, &fresh, Ok(START + 29 * DAY + DAY - 1)).is_ok());
    assert_eq!(apply_contribution(&data, &f, &fresh, Ok(START + 30 * DAY)), Err(FundraiserError::FundraisingEnded));
    // Before the start the elapsed days round towards zero.
    assert!(apply_contribution(&data, &f, &fresh, Ok(START - DAY + 1)).is_ok());
    // Two days before the start count as -2 days, whose low byte is 254.
    assert_eq!(apply_contribution(&data, &f, &fresh, Ok(START - 2 * DAY)), Err(FundraiserError::FundraisingEnded));
    // The day count keeps only its low byte: 256 days read as 0.
    assert!(apply_contribution(&data, &f, &fresh, Ok(START + 256 * DAY)).is_ok());
    assert_eq!(
        apply_contribution(&data, &f, &fresh, Err(FundraiserError::Runtime(4))),
        Err(FundraiserError::Runtime(4))
    );
}

#[test]
fn contribution_overflow_aborts() {
    let f = fundraiser_with(u64::MAX / 5, 0);
    let fresh = Contributor { amount: [0; 8], bump: 1 };
    let data = ContributeData { amount: 1_000u64.to_le_bytes(), bump: 1 };
    assert_eq!(apply_contribution(&data, &f, &fresh, Ok(START)), Err(FundraiserError::ArithmeticOverflow));
    let full = fundraiser_with(1_000_000, u64::MAX - 10);
    assert_eq!(apply_contribution(&data, &full, &fresh, Ok(START)), Err(FundraiserError::ArithmeticOverflow));
    let late = Fundraiser { time_started: i64::MIN.to_le_bytes(), ..fundraiser_with(1_000_000, 0) };
    assert_eq!(apply_contribution(&data, &late, &fresh, Ok(START)), Err(FundraiserError::ArithmeticOverflow));
}

#[test]
fn record_contribution_reads_accounts() {
    let f = fundraiser_with(500_000_000, 0);
    let c = Contributor { amount: [0; 8], bump: 3 };
    let data = ContributeData { amount: 10u64.to_le_bytes(), bump: 3 };
    let u = record_contribution(&data, &f.to_bytes(), &c.to_bytes(), Ok(START)).unwrap();
    assert_eq!(u.fundraiser.current_amount, 10u64.to_le_bytes());
    assert_eq!(record_contribution(&data, &f.to_bytes()[..89], &c.to_bytes(), Ok(START)), Err(FundraiserError::InvalidAccountData));
    assert_eq!(record_contribution(&data, &f.to_bytes(), &[0; 3], Ok(START)), Err(FundraiserError::InvalidAccountData));
}

#[test]
fn checker_pays_out_when_target_met() {
    let f = fundraiser_with(500_000_000, 0);
    let plan = load_checker(&f.to_bytes(), true, 0).unwrap();
    assert_eq!(plan.fundraiser, f);
    assert!(plan.create_maker_ata);
    assert!(!load_checker(&f.to_bytes(), true, 1).unwrap().create_maker_ata);
    assert!(!load_checker(&f.to_bytes(), false, 0).unwrap().create_maker_ata);
    assert_eq!(load_checker(&f.to_bytes()[..10], true, 0), Err(FundraiserError::InvalidInstructionData));
    let maker_ata = Ok(token(MINT, MAKER, 0));
    let vault = Ok(token(MINT, [0; 32], 500_000_000));
    assert_eq!(settle_checker(&f, maker_ata, vault, true, &MAKER, &MINT), Ok(500_000_000));
    assert_eq!(settle_checker(&f, maker_ata, vault, false, &MAKER, &MINT), Err(FundraiserError::MissingRequiredSignature));
    assert_eq!(
        settle_checker(&f, Ok(token(MINT, USER, 0)), vault, true, &MAKER, &MINT),
        Err(FundraiserError::InvalidAccountOwner)
    );
    assert_eq!(
        settle_checker(&f, Ok(token(USER, MAKER, 0)), vault, true, &MAKER, &MINT),
        Err(FundraiserError::InvalidAccountOwner)
    );
    let other_mint = Fundraiser { mint_to_raise: USER, ..f };
    assert_eq!(settle_checker(&other_mint, maker_ata, vault, true, &MAKER, &MINT), Err(FundraiserError::InvalidInstructionData));
    let other_maker = Fundraiser { maker: USER, ..f };
    assert_eq!(settle_checker(&other_maker, maker_ata, vault, true, &MAKER, &MINT), Err(FundraiserError::InvalidAccountOwner));
    assert_eq!(
        settle_checker(&f, maker_ata, Ok(token(MINT, [0; 32], 0)), true, &MAKER, &MINT),
        Err(FundraiserError::TargetNotMet)
    );
    assert_eq!(
        settle_checker(&f, Err(FundraiserError::Runtime(2)), vault, true, &MAKER, &MINT),
        Err(FundraiserError::Runtime(2))
    );
}

#[test]
fn target_check_compares_bytes_lexicographically() {
    let target = 500_000_000u64.to_le_bytes();
    assert!(is_target_met(500_000_000, &target));
    assert!(is_target_met(u64::MAX, &target));
    assert!(!is_target_met(256, &target));
    // 600_000_000 has a smaller second byte than 500_000_000.
    assert!(!is_target_met(600_000_000, &target));
    // 499_999_999 has a larger first byte than 500_000_000.
    assert!(is_target_met(499_999_999, &target));
}

#[test]
fn refund_while_target_not_met() {
    let f = fundraiser_with(500_000_000, 50_000_010);
    let c = Contributor { amount: 50_000_000u64.to_le_bytes(), bump: 4 };
    assert_eq!(check_refund_ata(Ok(token(MINT, USER, 0)), &USER, &MINT), Ok(()));
    assert_eq!(check_refund_ata(Ok(token(MINT, MAKER, 0)), &USER, &MINT), Err(FundraiserError::InvalidAccountData));
    assert_eq!(check_refund_ata(Ok(token(MAKER, USER, 0)), &USER, &MINT), Err(FundraiserError::InvalidAccountData));
    assert_eq!(check_refund_ata(Err(FundraiserError::Runtime(1)), &USER, &MINT), Err(FundraiserError::Runtime(1)));
    let vault = Ok(token(MINT, [0; 32], 256));
    let u = settle_refund(&f.to_bytes(), &c.to_bytes(), vault).unwrap();
    assert_eq!(u.fundraiser.current_amount, 10u64.to_le_bytes());
    assert_eq!(u.transfer_amount, 50_000_000);
    assert_eq!(
        settle_refund(&f.to_bytes(), &c.to_bytes(), Ok(token(MINT, [0; 32], 500_000_000))),
        Err(FundraiserError::TargetMet)
    );
    let short = fundraiser_with(500_000_000, 5);
    assert_eq!(settle_refund(&short.to_bytes(), &c.to_bytes(), vault), Err(FundraiserError::ArithmeticOverflow));
    assert_eq!(settle_refund(&f.to_bytes()[..5], &c.to_bytes(), vault), Err(FundraiserError::InvalidAccountData));
    assert_eq!(settle_refund(&f.to_bytes(), &c.to_bytes()[..5], vault), Err(FundraiserError::InvalidAccountData));
    assert_eq!(settle_refund(&f.to_bytes(), &c.to_bytes(), Err(FundraiserError::Runtime(6))), Err(FundraiserError::Runtime(6)));
}

#[test]
fn refund_undoes_a_contribution() {
    let f = fundraiser_with(500_000_000, 1_234);
    let fresh = Contributor { amount: [0; 8], bump: 4 };
    let data = ContributeData { amount: 40_000_000u64.to_le_bytes(), bump: 4 };
    let u = apply_contribution(&data, &f, &fresh, Ok(START)).unwrap();
    let r = settle_refund(&u.fundraiser.to_bytes(), &u.contributor.to_bytes(), Ok(token(MINT, [0; 32], 0))).unwrap();
    assert_eq!(r.fundraiser, f);
    assert_eq!(r.transfer_amount, 40_000_000);
}

#[test]
fn payout_and_refund_exclude_each_other() {
    let f = fundraiser_with(500_000_000, 0);
    let c = Contributor { amount: [0; 8], bump: 4 };
    for amount in [0u64, 1, 256, 499_999_999, 500_000_000, 500_000_001, u64::MAX] {
        let vault = token(MINT, [0; 32], amount);
        let paid = settle_checker(&f, Ok(token(MINT, MAKER, 0)), Ok(vault), true, &MAKER, &MINT).is_ok();
        let refunded = settle_refund(&f.to_bytes(), &c.to_bytes(), Ok(vault)).is_ok();
        assert!(paid != refunded);
    }
}

#[test]
fn reclaim_lamports_adds_or_aborts() {
    assert_eq!(reclaim_lamports(10, 5), Ok(15));
    assert_eq!(reclaim_lamports(u64::MAX, 1), Err(FundraiserError::ArithmeticOverflow));
}

#[test]
fn error_messages() {
    assert!(FundraiserError::TargetNotMet.is_abort());
    assert_eq!(FundraiserError::TargetNotMet.abort_message(), "target not met");
    assert_eq!(FundraiserError::ContributionTooBig.abort_message(), "contribution too big");
    assert!(!FundraiserError::InvalidAccountData.is_abort());
    assert_eq!(FundraiserError::Runtime(3).abort_message(), "");
}

/// Opens the fundraiser of the Initialize scenario: target 500_000_000 of a
/// mint with 6 decimals, 30 days, at the address derived from the maker.
fn opened_fundraiser() -> Fundraiser {
    let address = pda(&MAKER, 254);
    let data = check_initialize(&init_payload(254, 500_000_000, 30), Ok(6), &MAKER, &address, false).unwrap();
    initialize_fundraiser_account(&[0; FUNDRAISER_LEN], &MAKER, &MINT, &data, Ok(START)).unwrap()
}

#[test]
fn test_initialize_instruction() {
    let address = pda(&MAKER, 254);
    let mut payload = vec![0u8];
    payload.extend_from_slice(&init_payload(254, 500_000_000, 30));
    assert_eq!(decode_instruction(&PROGRAM_ID, &payload), Ok(FundraiserInstructions::Initialize));
    assert_eq!(FundraiserInstructions::Initialize.check_account_count(7), Ok(()));
    let data = check_initialize(&payload[1..], Ok(6), &MAKER, &address, false).unwrap();
    let f = initialize_fundraiser_account(&[0; FUNDRAISER_LEN], &MAKER, &MINT, &data, Ok(START)).unwrap();
    assert_eq!(f.maker, MAKER);
    assert_eq!(f.mint_to_raise, MINT);
    assert_eq!(f.amount_to_raise, 500_000_000u64.to_le_bytes());
    assert_eq!(f.current_amount, [0; 8]);
    assert_eq!(f.duration, 30);
    assert_eq!(f.bump, 254);
}

#[test]
fn test_contribute_instruction() {
    let f = opened_fundraiser();
    let mut payload = vec![1u8];
    payload.extend_from_slice(&contribute_payload(200_000_000, 9));
    assert_eq!(decode_instruction(&PROGRAM_ID, &payload), Ok(FundraiserInstructions::Contribute));
    assert_eq!(FundraiserInstructions::Contribute.check_account_count(8), Ok(()));
    let user_ata = token(MINT, USER, 500_000_000);
    let plan = check_contribute(&payload[1..], Ok(6), Ok(user_ata), &USER, &MINT, false).unwrap();
    assert!(plan.create_contributor);
    // The contributor account is created with zeroed data.
    let u = record_contribution(&plan.data, &f.to_bytes(), &[0; 9], Ok(START + 60)).unwrap();
    assert_eq!(u.transfer_amount, 200_000_000);
    assert_eq!(u.fundraiser.current_amount, 200_000_000u64.to_le_bytes());
    assert_eq!(u.contributor.amount, 200_000_000u64.to_le_bytes());
}

#[test]
fn test_checker_instruction() {
    let f = opened_fundraiser();
    assert_eq!(decode_instruction(&PROGRAM_ID, &[2u8]), Ok(FundraiserInstructions::Checker));
    assert_eq!(FundraiserInstructions::Checker.check_account_count(8), Ok(()));
    // The maker's token account does not exist yet: it is created.
    let plan = load_checker(&f.to_bytes(), true, 0).unwrap();
    assert!(plan.create_maker_ata);
    // The vault was minted exactly the target.
    let vault = token(MINT, pda(&MAKER, 254), 500_000_000);
    let amount_received =
        settle_checker(&plan.fundraiser, Ok(token(MINT, MAKER, 0)), Ok(vault), true, &MAKER, &MINT).unwrap();
    assert_eq!(amount_received, 500_000_000);
    // The fundraiser is closed: its rent lamports all go to the maker, and
    // the fundraiser keeps none.
    let maker_lamports = 10_000_000_000u64;
    let fundraiser_lamports = 1_517_280u64;
    assert_eq!(reclaim_lamports(maker_lamports, fundraiser_lamports), Ok(maker_lamports + fundraiser_lamports));
    // The maker's token account then holds the amount received.
    let maker_ata_after = token(MINT, MAKER, amount_received);
    assert_eq!(maker_ata_after.amount, 500_000_000);
}

#[test]
fn scenario_initialize_contribute_checker() {
    // Open: target 500_000_000 of a mint with 6 decimals, 30 days.
    let address = pda(&MAKER, 254);
    let data = check_initialize(&init_payload(254, 500_000_000, 30), Ok(6), &MAKER, &address, false).unwrap();
    let f = initialize_fundraiser_account(&[0; FUNDRAISER_LEN], &MAKER, &MINT, &data, Ok(START)).unwrap();
    // Contribute 200_000_000.
    let plan = check_contribute(&contribute_payload(200_000_000, 9), Ok(6), Ok(token(MINT, USER, 500_000_000)), &USER, &MINT, false).unwrap();
    let u = record_contribution(&plan.data, &f.to_bytes(), &[0; 9], Ok(START + 60)).unwrap();
    assert_eq!(u.transfer_amount, 200_000_000);
    assert_eq!(u.fundraiser.current_amount, 200_000_000u64.to_le_bytes());
    // The vault then holds the target: the maker collects it.
    let checker = load_checker(&u.fundraiser.to_bytes(), true, 0).unwrap();
    let paid = settle_checker(&checker.fundraiser, Ok(token(MINT, MAKER, 0)), Ok(token(MINT, address, 500_000_000)), true, &MAKER, &MINT);
    assert_eq!(paid, Ok(500_000_000));
}
