//! Contributing to a fundraiser.
use vstd::prelude::*;

use crate::accounts::TokenAccountState;
use crate::constants::{MAX_CONTRIBUTION_PERCENTAGE, PERCENTAGE_SCALER, SECONDS_TO_DAYS};
use crate::error::{outcome_matches, FundraiserError};
use crate::helpers::{add_le_bytes, bytes_equal, copy_bytes, le_value, u64_from_le};
use crate::state::contributor::{lemma_contributor_layout_round_trip, Contributor, CONTRIBUTOR_LEN};
use crate::state::fundraiser::{lemma_fundraiser_layout_round_trip, Fundraiser, FUNDRAISER_LEN};

verus! {

/// The payload of a Contribute instruction: the amount given, as a
/// little-endian amount, and the bump of the contributor account's address.
#[derive(Clone, Copy, Debug, PartialEq, Eq)]
pub struct ContributeData {
    pub amount: [u8; 8],
    pub bump: u8,
}

/// The size of a Contribute payload.
pub const CONTRIBUTE_DATA_LEN: usize = 9;

impl ContributeData {
    /// The bytes of the payload: the amount, then the bump.
    pub open spec fn layout(self) -> Seq<u8> {
        self.amount@ + seq![self.bump]
    }

    /// Reads the payload from the first `CONTRIBUTE_DATA_LEN` bytes of
    /// `payload`; bytes after them are ignored, fewer are invalid data.
    pub fn parse(payload: &[u8]) -> (res: Result<ContributeData, FundraiserError>)
        ensures
            payload@.len() >= CONTRIBUTE_DATA_LEN ==> (res matches Ok(d) && d.layout()
                == payload@.subrange(0, CONTRIBUTE_DATA_LEN as int) && d.amount@ == payload@.subrange(0, 8)
                && d.bump == payload@[8]),
            payload@.len() < CONTRIBUTE_DATA_LEN ==> res == Err::<ContributeData, FundraiserError>(
                FundraiserError::InvalidInstructionData,
            ),
    {
        if payload.len() < CONTRIBUTE_DATA_LEN {
            return Err(FundraiserError::InvalidInstructionData);
        }
        let amount: [u8; 8] = copy_bytes(payload, 0);
        let d = ContributeData { amount, bump: payload[8] };
        assert(d.layout() =~= payload@.subrange(0, CONTRIBUTE_DATA_LEN as int));
        assert(d.amount@ =~= payload@.subrange(0, 8));
        Ok(d)
    }
}

/// What Contribute does before touching the contributor account: the
/// payload, and whether the contributor account must first be created.
#[derive(Clone, Copy, Debug, PartialEq, Eq)]
pub struct ContributePlan {
    pub data: ContributeData,
    pub create_contributor: bool,
}

/// How the first checks of Contribute end: the payload must be long enough,
/// the mint readable, the amount more than one token unit (`1` raised to the
/// mint's decimals; else the program aborts), the contributor's token account
/// readable and held by the contributor for the fundraiser's mint.
pub open spec fn contribute_check_outcome(
    payload: Seq<u8>,
    mint_decimals: Result<u8, FundraiserError>,
    contributor_ata: Result<TokenAccountState, FundraiserError>,
    user: Seq<u8>,
    mint: Seq<u8>,
) -> Result<(), FundraiserError> {
    if payload.len() < CONTRIBUTE_DATA_LEN {
        Err(FundraiserError::InvalidInstructionData)
    } else if mint_decimals is Err {
        Err(mint_decimals->Err_0)
    } else if le_value(payload.subrange(0, 8)) <= 1 {
        Err(FundraiserError::ContributionTooSmall)
    } else {
        match contributor_ata {
            Err(e) => Err(e),
            Ok(ata) => if ata.owner@ != user {
                Err(FundraiserError::InvalidAccountData)
            } else if ata.mint@ != mint {
                Err(FundraiserError::InvalidAccountData)
            } else {
                Ok(())
            },
        }
    }
}

/// The first checks of Contribute; the plan asks to create the contributor
/// account when it does not belong to the program yet.
pub fn check_contribute(
    payload: &[u8],
    mint_decimals: Result<u8, FundraiserError>,
    contributor_ata: Result<TokenAccountState, FundraiserError>,
    user: &[u8; 32],
    mint: &[u8; 32],
    contributor_owned_by_program: bool,
) -> (res: Result<ContributePlan, FundraiserError>)
    ensures
        outcome_matches(res, contribute_check_outcome(payload@, mint_decimals, contributor_ata, user@, mint@)),
        res matches Ok(plan) ==> plan.data.layout() == payload@.subrange(0, CONTRIBUTE_DATA_LEN as int)
            && plan.data.amount@ == payload@.subrange(0, 8) && plan.data.bump == payload@[8]
            && plan.create_contributor == !contributor_owned_by_program,
{
    let data = ContributeData::parse(payload)?;
    let _decimals = mint_decimals?;
    assert(data.amount@ =~= payload@.subrange(0, 8)) by {
        assert(data.amount@ =~= data.layout().subrange(0, 8));
    }
    // One raised to the mint's decimals is one.
    if u64_from_le(data.amount) <= 1 {
        return Err(FundraiserError::ContributionTooSmall);
    }
    let ata = contributor_ata?;
    if !bytes_equal(&ata.owner, user) {
        return Err(FundraiserError::InvalidAccountData);
    }
    if !bytes_equal(&ata.mint, mint) {
        return Err(FundraiserError::InvalidAccountData);
    }
    Ok(ContributePlan { data, create_contributor: !contributor_owned_by_program })
}

/// The most one contributor may give to a fundraiser with this target.
pub open spec fn max_contribution(target: nat) -> nat {
    target * MAX_CONTRIBUTION_PERCENTAGE as nat / PERCENTAGE_SCALER as nat
}

/// `x / d` rounded towards zero, as Rust divides signed integers.
pub open spec fn trunc_div(x: int, d: int) -> int {
    if x >= 0 {
        x / d
    } else {
        -((-x) / d)
    }
}

/// The whole days, as the program counts them, between the start of a
/// fundraiser and `now`: the difference in seconds divided by the seconds of a
/// day, rounded towards zero and cut to its low byte.
pub open spec fn elapsed_days(now: i64, started: i64) -> u8 {
    trunc_div(now - started, SECONDS_TO_DAYS as int) as u8
}

/// The start time that a fundraiser holds.
pub open spec fn start_time(f: Fundraiser) -> i64 {
    le_value(f.time_started@) as i64
}

/// How Contribute ends once the fundraiser and contributor are read: the
/// target times the percentage must fit in a `u64`; the amount must not exceed
/// the most one contributor may give, nor, added to what the contributor gave
/// before, exceed it; the clock must be readable; the fundraiser must not have
/// run for its duration (each of these aborts the program where it fails, but
/// the clock, whose failure is returned); and the sum the fundraiser has
/// received must still fit in a `u64`.
pub open spec fn contribution_outcome(
    amount: nat,
    f: Fundraiser,
    c: Contributor,
    now: Result<i64, FundraiserError>,
) -> Result<(), FundraiserError> {
    let target = le_value(f.amount_to_raise@);
    let given = le_value(c.amount@);
    if target * MAX_CONTRIBUTION_PERCENTAGE > u64::MAX {
        Err(FundraiserError::ArithmeticOverflow)
    } else if amount > max_contribution(target) {
        Err(FundraiserError::ContributionTooBig)
    } else if given > max_contribution(target) || given + amount > max_contribution(target) {
        Err(FundraiserError::MaximumContributionReached)
    } else {
        match now {
            Err(e) => Err(e),
            Ok(t) => if t - start_time(f) < i64::MIN || t - start_time(f) > i64::MAX {
                Err(FundraiserError::ArithmeticOverflow)
            } else if f.duration <= elapsed_days(t, start_time(f)) {
                Err(FundraiserError::FundraisingEnded)
            } else if le_value(f.current_amount@) + amount > u64::MAX {
                Err(FundraiserError::ArithmeticOverflow)
            } else {
                Ok(())
            },
        }
    }
}

/// The accounts after a contribution of `amount`.
#[derive(Clone, Copy, Debug, PartialEq, Eq)]
pub struct ContributeUpdate {
    pub fundraiser: Fundraiser,
    pub contributor: Contributor,
    pub transfer_amount: u64,
}

/// `u` records a contribution of `amount` to `f` by `c`: the fundraiser's
/// received sum and the contributor's given sum both grow by `amount`, nothing
/// else changes, and `amount` tokens are to be transferred to the vault.
pub open spec fn records_contribution(u: ContributeUpdate, amount: nat, f: Fundraiser, c: Contributor) -> bool {
    &&& le_value(u.fundraiser.current_amount@) == le_value(f.current_amount@) + amount
    &&& u.fundraiser.maker == f.maker
    &&& u.fundraiser.mint_to_raise == f.mint_to_raise
    &&& u.fundraiser.amount_to_raise == f.amount_to_raise
    &&& u.fundraiser.time_started == f.time_started
    &&& u.fundraiser.duration == f.duration
    &&& u.fundraiser.bump == f.bump
    &&& le_value(u.contributor.amount@) == le_value(c.amount@) + amount
    &&& u.contributor.bump == c.bump
    &&& u.transfer_amount == amount
}

/// Records a contribution of `data.amount` to the fundraiser `f` by the
/// contributor `c`, at the time `now` (`Err` where the clock could not be
/// read).
pub fn apply_contribution(
    data: &ContributeData,
    f: &Fundraiser,
    c: &Contributor,
    now: Result<i64, FundraiserError>,
) -> (res: Result<ContributeUpdate, FundraiserError>)
    ensures
        outcome_matches(res, contribution_outcome(le_value(data.amount@), *f, *c, now)),
        res matches Ok(u) ==> records_contribution(u, le_value(data.amount@), *f, *c),
        res matches Ok(u) ==> u.transfer_amount == le_value(data.amount@),
{
    let amount = u64_from_le(data.amount);
    let target = u64_from_le(f.amount_to_raise);
    let scaled = match target.checked_mul(MAX_CONTRIBUTION_PERCENTAGE) {
        Some(v) => v,
        None => {
            return Err(FundraiserError::ArithmeticOverflow);
        },
    };
    let max = scaled / PERCENTAGE_SCALER;
    if amount > max {
        return Err(FundraiserError::ContributionTooBig);
    }
    let given = u64_from_le(c.amount);
    if !(given <= max && given + amount <= max) {
        return Err(FundraiserError::MaximumContributionReached);
    }
    let current_time = now?;
    let started = u64_from_le(f.time_started) as i64;
    let elapsed = match current_time.checked_sub(started) {
        Some(v) => v,
        None => {
            return Err(FundraiserError::ArithmeticOverflow);
        },
    };
    let days = match elapsed.checked_div(SECONDS_TO_DAYS) {
        Some(v) => v,
        None => {
            return Err(FundraiserError::ArithmeticOverflow);
        },
    };
    if f.duration <= days as u8 {
        return Err(FundraiserError::FundraisingEnded);
    }
    let current = u64_from_le(f.current_amount);
    if current.checked_add(amount).is_none() {
        return Err(FundraiserError::ArithmeticOverflow);
    }
    let fundraiser = Fundraiser { current_amount: add_le_bytes(f.current_amount, data.amount), ..*f };
    let contributor = Contributor { amount: add_le_bytes(c.amount, data.amount), ..*c };
    Ok(ContributeUpdate { fundraiser, contributor, transfer_amount: amount })
}

/// The rest of Contribute, once the contributor account exists: reads the
/// fundraiser and the contributor from their accounts' data (each must have
/// its account's size) and records the contribution.
pub fn record_contribution(
    data: &ContributeData,
    fundraiser_data: &[u8],
    contributor_data: &[u8],
    now: Result<i64, FundraiserError>,
) -> (res: Result<ContributeUpdate, FundraiserError>)
    ensures
        fundraiser_data@.len() != FUNDRAISER_LEN ==> res == Err::<ContributeUpdate, FundraiserError>(
            FundraiserError::InvalidAccountData,
        ),
        fundraiser_data@.len() == FUNDRAISER_LEN && contributor_data@.len() != CONTRIBUTOR_LEN
            ==> res == Err::<ContributeUpdate, FundraiserError>(FundraiserError::InvalidAccountData),
        fundraiser_data@.len() == FUNDRAISER_LEN && contributor_data@.len() == CONTRIBUTOR_LEN
            ==> exists|f: Fundraiser, c: Contributor|
            f.layout() == fundraiser_data@ && c.layout() == contributor_data@,
        forall|f: Fundraiser, c: Contributor|
            f.layout() == fundraiser_data@ && c.layout() == contributor_data@ ==> {
                &&& outcome_matches(res, contribution_outcome(le_value(data.amount@), f, c, now))
                &&& (res matches Ok(u) ==> records_contribution(u, le_value(data.amount@), f, c))
            },
{
    let f = Fundraiser::from_account_info(fundraiser_data)?;
    let c = Contributor::from_account_info(contributor_data)?;
    let res = apply_contribution(data, &f, &c, now);
    proof {
        assert forall|f2: Fundraiser, c2: Contributor|
            f2.layout() == fundraiser_data@ && c2.layout() == contributor_data@ implies {
                &&& outcome_matches(res, contribution_outcome(le_value(data.amount@), f2, c2, now))
                &&& (res matches Ok(u) ==> records_contribution(u, le_value(data.amount@), f2, c2))
            } by {
            lemma_fundraiser_layout_round_trip(f, f2);
            lemma_contributor_layout_round_trip(c, c2);
        }
    }
    res
}

/// No contributor ends up above the cap: after a contribution that succeeds,
/// what the contributor has given in all is at most the most one contributor
/// may give to the fundraiser.
pub proof fn lemma_contribution_respects_cap(
    amount: nat,
    f: Fundraiser,
    c: Contributor,
    now: Result<i64, FundraiserError>,
    u: ContributeUpdate,
)
    requires
        contribution_outcome(amount, f, c, now) is Ok,
        records_contribution(u, amount, f, c),
    ensures
        le_value(u.contributor.amount@) <= max_contribution(le_value(u.fundraiser.amount_to_raise@)),
{
}

/// The first checks of Contribute pass exactly when the payload holds an
/// amount and a bump, the mint could be read, the amount is more than one base
/// unit, and the contributor's token account could be read and is held by the
/// contributor for the mint.
pub proof fn lemma_contribute_checks_pass(
    payload: Seq<u8>,
    mint_decimals: Result<u8, FundraiserError>,
    contributor_ata: Result<TokenAccountState, FundraiserError>,
    user: Seq<u8>,
    mint: Seq<u8>,
)
    ensures
        contribute_check_outcome(payload, mint_decimals, contributor_ata, user, mint) is Ok <==> {
            &&& payload.len() >= 9
            &&& mint_decimals is Ok
            &&& le_value(payload.subrange(0, 8)) > 1
            &&& contributor_ata is Ok
            &&& contributor_ata->Ok_0.owner@ == user
            &&& contributor_ata->Ok_0.mint@ == mint
        },
{
}

/// A contribution is accepted exactly when the target times the percentage
/// fits in a `u64`, the contributor's own total after it stays within the cap
/// (`target * MAX_CONTRIBUTION_PERCENTAGE / PERCENTAGE_SCALER`), the time
/// since the start fits in an `i64`, fewer whole days than the duration have
/// passed (counted towards zero and cut to a byte), and the fundraiser's total
/// stays within a `u64`. What other contributors gave counts only in that last
/// overflow check.
pub proof fn lemma_contribution_accepted(amount: nat, f: Fundraiser, c: Contributor, t: i64)
    ensures
        contribution_outcome(amount, f, c, Ok(t)) is Ok <==> {
            let target = le_value(f.amount_to_raise@);
            let cap = target * MAX_CONTRIBUTION_PERCENTAGE / PERCENTAGE_SCALER as int;
            let elapsed = t - (le_value(f.time_started@) as i64);
            let days = if elapsed >= 0 {
                elapsed / SECONDS_TO_DAYS as int
            } else {
                -((-elapsed) / SECONDS_TO_DAYS as int)
            };
            &&& target * MAX_CONTRIBUTION_PERCENTAGE <= u64::MAX
            &&& le_value(c.amount@) + amount <= cap
            &&& i64::MIN <= elapsed <= i64::MAX
            &&& (days as u8) < f.duration
            &&& le_value(f.current_amount@) + amount <= u64::MAX
        },
{
}

/// Whether a contribution is accepted, and how it fails, do not depend on
/// what the fundraiser has already received from others, as long as adding
/// the contribution does not overflow: two fundraisers that differ only in
/// their received sums give the same outcome.
pub proof fn lemma_contribution_ignores_amount_raised(
    amount: nat,
    f: Fundraiser,
    g: Fundraiser,
    c: Contributor,
    now: Result<i64, FundraiserError>,
)
    requires
        f.maker == g.maker,
        f.mint_to_raise == g.mint_to_raise,
        f.amount_to_raise == g.amount_to_raise,
        f.time_started == g.time_started,
        f.duration == g.duration,
        f.bump == g.bump,
        le_value(f.current_amount@) + amount <= u64::MAX,
        le_value(g.current_amount@) + amount <= u64::MAX,
    ensures
        contribution_outcome(amount, f, c, now) == contribution_outcome(amount, g, c, now),
{
}

/// A recorded contribution moves one amount everywhere: the fundraiser's
/// received sum and the contributor's given sum both grow by exactly what is
/// transferred to the vault.
pub proof fn lemma_contribution_conserves_tokens(u: ContributeUpdate, amount: nat, f: Fundraiser, c: Contributor)
    requires
        records_contribution(u, amount, f, c),
    ensures
        le_value(u.fundraiser.current_amount@) == le_value(f.current_amount@) + u.transfer_amount,
        le_value(u.contributor.amount@) == le_value(c.amount@) + u.transfer_amount,
{
}

} // verus!
