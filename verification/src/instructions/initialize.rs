//! Opening a fundraiser.
use vstd::prelude::*;

use crate::constants::{FUNDRAISER_SEED, MIN_AMOUNT_TO_RAISE, PROGRAM_ID};
use crate::error::{outcome_matches, FundraiserError};
use crate::helpers::{bytes_equal, checked_pow, copy_bytes, le_value, power, u64_from_le, u64_to_le};
use crate::pda::{derive_address, derived_address};
use crate::state::fundraiser::{Fundraiser, FUNDRAISER_LEN};

verus! {

/// The payload of an Initialize instruction: the bump of the fundraiser's
/// address, the target as a little-endian amount, and the duration in days.
#[derive(Clone, Copy, Debug, PartialEq, Eq)]
pub struct InitializeData {
    pub bump: u8,
    pub amount_to_raise: [u8; 8],
    pub duration: u8,
}

/// The size of an Initialize payload.
pub const INITIALIZE_DATA_LEN: usize = 10;

impl InitializeData {
    /// The bytes of the payload: the bump, the target, the duration.
    pub open spec fn layout(self) -> Seq<u8> {
        seq![self.bump] + self.amount_to_raise@ + seq![self.duration]
    }

    /// Reads the payload from the first `INITIALIZE_DATA_LEN` bytes of
    /// `payload`; bytes after them are ignored, fewer are invalid data.
    pub fn parse(payload: &[u8]) -> (res: Result<InitializeData, FundraiserError>)
        ensures
            payload@.len() >= INITIALIZE_DATA_LEN ==> (res matches Ok(d) && d.layout()
                == payload@.subrange(0, INITIALIZE_DATA_LEN as int)),
            res matches Ok(d) ==> (d.bump == payload@[0] && d.amount_to_raise@ == payload@.subrange(1, 9)
                && d.duration == payload@[9]),
            payload@.len() < INITIALIZE_DATA_LEN ==> res == Err::<InitializeData, FundraiserError>(
                FundraiserError::InvalidInstructionData,
            ),
    {
        if payload.len() < INITIALIZE_DATA_LEN {
            return Err(FundraiserError::InvalidInstructionData);
        }
        let amount_to_raise: [u8; 8] = copy_bytes(payload, 1);
        let d = InitializeData { bump: payload[0], amount_to_raise, duration: payload[9] };
        assert(d.layout() =~= payload@.subrange(0, INITIALIZE_DATA_LEN as int));
        assert(d.amount_to_raise@ =~= payload@.subrange(1, 9));
        Ok(d)
    }
}

/// The target written in an Initialize payload of at least
/// `INITIALIZE_DATA_LEN` bytes.
pub open spec fn payload_target(payload: Seq<u8>) -> nat {
    le_value(payload.subrange(1, 9))
}

/// How the first checks of Initialize end: the payload must be long enough,
/// the mint readable, `MIN_AMOUNT_TO_RAISE` raised to the mint's decimals must
/// fit in a `u64` (else the program aborts on the overflow), and the target
/// must exceed it (else the program aborts).
pub open spec fn initialize_data_outcome(payload: Seq<u8>, mint_decimals: Result<u8, FundraiserError>) -> Result<(), FundraiserError> {
    if payload.len() < INITIALIZE_DATA_LEN {
        Err(FundraiserError::InvalidInstructionData)
    } else {
        match mint_decimals {
            Err(e) => Err(e),
            Ok(decimals) => {
                let minimum = power(MIN_AMOUNT_TO_RAISE as nat, decimals as nat);
                if minimum > u64::MAX {
                    Err(FundraiserError::ArithmeticOverflow)
                } else if payload_target(payload) <= minimum {
                    Err(FundraiserError::AmountBelowMinimum)
                } else {
                    Ok(())
                }
            },
        }
    }
}

/// How the address checks of Initialize end: the fundraiser account must be at
/// the address derived from its seeds (else the program aborts, reporting the
/// derived address), and must not belong to the program yet.
pub open spec fn fundraiser_address_outcome(fundraiser_address: Seq<u8>, derived: [u8; 32], fundraiser_owned_by_program: bool) -> Result<(), FundraiserError> {
    if derived@ != fundraiser_address {
        Err(FundraiserError::FundraiserAddressMismatch(derived))
    } else if fundraiser_owned_by_program {
        Err(FundraiserError::IllegalOwner)
    } else {
        Ok(())
    }
}

/// The first checks of Initialize: reads the payload and checks the target
/// against the mint's decimals (`Err` where reading the mint failed).
pub fn check_initialize_data(payload: &[u8], mint_decimals: Result<u8, FundraiserError>) -> (res: Result<InitializeData, FundraiserError>)
    ensures
        outcome_matches(res, initialize_data_outcome(payload@, mint_decimals)),
        res matches Ok(d) ==> (d.layout() == payload@.subrange(0, INITIALIZE_DATA_LEN as int) && d.bump
            == payload@[0] && d.amount_to_raise@ == payload@.subrange(1, 9) && d.duration == payload@[9]),
{
    let data = InitializeData::parse(payload)?;
    let decimals = mint_decimals?;
    let minimum = match checked_pow(MIN_AMOUNT_TO_RAISE, decimals) {
        Some(m) => m,
        None => {
            return Err(FundraiserError::ArithmeticOverflow);
        },
    };
    assert(data.amount_to_raise@ =~= payload@.subrange(1, 9)) by {
        assert(data.amount_to_raise@ =~= data.layout().subrange(1, 9));
    }
    if u64_from_le(data.amount_to_raise) <= minimum {
        return Err(FundraiserError::AmountBelowMinimum);
    }
    Ok(data)
}

/// The address checks of Initialize, given the address derived from the
/// fundraiser's seeds.
pub fn check_fundraiser_address(fundraiser_address: &[u8; 32], derived: &[u8; 32], fundraiser_owned_by_program: bool) -> (res: Result<(), FundraiserError>)
    ensures
        res == fundraiser_address_outcome(fundraiser_address@, *derived, fundraiser_owned_by_program),
{
    if !bytes_equal(derived, fundraiser_address) {
        return Err(FundraiserError::FundraiserAddressMismatch(*derived));
    }
    if fundraiser_owned_by_program {
        return Err(FundraiserError::IllegalOwner);
    }
    Ok(())
}

/// All the checks of Initialize before the fundraiser account is created: the
/// payload and target, then the fundraiser's address, derived from the seeds
/// `["fundraiser", maker, [bump]]` under the program's id, and its owner.
pub fn check_initialize(
    payload: &[u8],
    mint_decimals: Result<u8, FundraiserError>,
    maker: &[u8; 32],
    fundraiser_address: &[u8; 32],
    fundraiser_owned_by_program: bool,
) -> (res: Result<InitializeData, FundraiserError>)
    ensures
        initialize_data_outcome(payload@, mint_decimals) is Err ==> res == Err::<
            InitializeData,
            FundraiserError,
        >(initialize_data_outcome(payload@, mint_decimals)->Err_0),
        initialize_data_outcome(payload@, mint_decimals) is Ok ==> exists|derived: [u8; 32]|
            derived@ == derived_address(FUNDRAISER_SEED@, maker@, payload@[0], PROGRAM_ID@)
                && #[trigger] outcome_matches(
                res,
                fundraiser_address_outcome(fundraiser_address@, derived, fundraiser_owned_by_program),
            ),
        res matches Ok(d) ==> (d.layout() == payload@.subrange(0, INITIALIZE_DATA_LEN as int) && d.bump
            == payload@[0] && d.amount_to_raise@ == payload@.subrange(1, 9) && d.duration == payload@[9]),
{
    let data = check_initialize_data(payload, mint_decimals)?;
    let seed = FUNDRAISER_SEED;
    let program_id = PROGRAM_ID;
    let derived = derive_address(seed.as_slice(), maker, data.bump, &program_id);
    assert(data.bump == payload@[0]) by {
        assert(data.layout()[0] == data.bump);
    }
    let ghost outcome = fundraiser_address_outcome(fundraiser_address@, derived, fundraiser_owned_by_program);
    match check_fundraiser_address(fundraiser_address, &derived, fundraiser_owned_by_program) {
        Err(e) => {
            assert(outcome_matches(Err::<InitializeData, FundraiserError>(e), outcome));
            Err(e)
        },
        Ok(_) => {
            assert(outcome_matches(Ok::<InitializeData, FundraiserError>(data), outcome));
            Ok(data)
        },
    }
}

/// `f` is the fundraiser that Initialize writes: see `initial_fundraiser`.
pub open spec fn is_initial_fundraiser(f: Fundraiser, maker: [u8; 32], mint: [u8; 32], data: InitializeData, now: i64) -> bool {
    &&& f.maker == maker
    &&& f.mint_to_raise == mint
    &&& f.amount_to_raise == data.amount_to_raise
    &&& le_value(f.current_amount@) == 0
    &&& le_value(f.time_started@) == now as u64
    &&& f.duration == data.duration
    &&& f.bump == data.bump
}

/// The fundraiser that Initialize writes: opened by `maker` for `mint`, with
/// the payload's target, duration and bump, nothing raised yet, started at
/// `now` (stored as the little-endian bytes of the two's-complement time).
pub fn initial_fundraiser(maker: &[u8; 32], mint: &[u8; 32], data: &InitializeData, now: i64) -> (f: Fundraiser)
    ensures
        is_initial_fundraiser(f, *maker, *mint, *data, now),
{
    Fundraiser {
        maker: *maker,
        mint_to_raise: *mint,
        amount_to_raise: data.amount_to_raise,
        current_amount: u64_to_le(0),
        time_started: u64_to_le(now as u64),
        duration: data.duration,
        bump: data.bump,
    }
}

/// The last step of Initialize, once the fundraiser account is created: its
/// data must have the fundraiser's size, and the clock must be readable (`Err`
/// where it was not); the result is the fundraiser to write to the account.
pub fn initialize_fundraiser_account(
    account_data: &[u8],
    maker: &[u8; 32],
    mint: &[u8; 32],
    data: &InitializeData,
    now: Result<i64, FundraiserError>,
) -> (res: Result<Fundraiser, FundraiserError>)
    ensures
        account_data@.len() != FUNDRAISER_LEN ==> res == Err::<Fundraiser, FundraiserError>(
            FundraiserError::InvalidAccountData,
        ),
        account_data@.len() == FUNDRAISER_LEN ==> match now {
            Err(e) => res == Err::<Fundraiser, FundraiserError>(e),
            Ok(t) => res matches Ok(f) && is_initial_fundraiser(f, *maker, *mint, *data, t),
        },
{
    let _ = Fundraiser::from_account_info(account_data)?;
    let time = now?;
    Ok(initial_fundraiser(maker, mint, data, time))
}

/// Any target above `MIN_AMOUNT_TO_RAISE` raised to the mint's decimals is
/// accepted, as long as that power fits in a `u64`; nothing else about the
/// target is checked.
pub proof fn lemma_initialize_target_accepted(payload: Seq<u8>, decimals: u8)
    ensures
        initialize_data_outcome(payload, Ok(decimals)) is Ok <==> {
            &&& payload.len() >= 10
            &&& power(MIN_AMOUNT_TO_RAISE as nat, decimals as nat) <= u64::MAX
            &&& le_value(payload.subrange(1, 9)) > power(MIN_AMOUNT_TO_RAISE as nat, decimals as nat)
        },
{
}

/// The address checks of Initialize pass exactly when the fundraiser account
/// is at the derived address and does not belong to the program yet.
pub proof fn lemma_fundraiser_address_accepted(fundraiser_address: Seq<u8>, derived: [u8; 32], owned: bool)
    ensures
        fundraiser_address_outcome(fundraiser_address, derived, owned) is Ok <==> (derived@
            == fundraiser_address && !owned),
{
}

} // verus!
