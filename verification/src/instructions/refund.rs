//! Refunding a contributor while the target is not met.
use vstd::prelude::*;

use crate::accounts::TokenAccountState;
use crate::error::{outcome_matches, FundraiserError};
use crate::helpers::{bytes_equal, le_bytes, le_value, lemma_le_value_injective, lex_less, sub_le_bytes, u64_from_le};
use crate::instructions::checker::{checker_outcome, is_target_met, target_met};
use crate::instructions::contribute::{records_contribution, ContributeUpdate};
use crate::state::contributor::{lemma_contributor_layout_round_trip, Contributor, CONTRIBUTOR_LEN};
use crate::state::fundraiser::{lemma_fundraiser_layout_round_trip, Fundraiser, FUNDRAISER_LEN};

verus! {

/// How the first checks of Refund end: the contributor's token account must
/// be readable and held by the contributor for the mint.
pub open spec fn refund_ata_outcome(
    contributor_ata: Result<TokenAccountState, FundraiserError>,
    user: Seq<u8>,
    mint: Seq<u8>,
) -> Result<(), FundraiserError> {
    match contributor_ata {
        Err(e) => Err(e),
        Ok(ata) => if ata.owner@ != user {
            Err(FundraiserError::InvalidAccountData)
        } else if ata.mint@ != mint {
            Err(FundraiserError::InvalidAccountData)
        } else {
            Ok(())
        },
    }
}

/// The first checks of Refund.
pub fn check_refund_ata(
    contributor_ata: Result<TokenAccountState, FundraiserError>,
    user: &[u8; 32],
    mint: &[u8; 32],
) -> (res: Result<(), FundraiserError>)
    ensures
        res == refund_ata_outcome(contributor_ata, user@, mint@),
{
    let ata = contributor_ata?;
    if !bytes_equal(&ata.owner, user) {
        return Err(FundraiserError::InvalidAccountData);
    }
    if !bytes_equal(&ata.mint, mint) {
        return Err(FundraiserError::InvalidAccountData);
    }
    Ok(())
}

/// How Refund ends once the fundraiser and contributor are read: the vault
/// must be readable, must not meet the target (else the program aborts), and
/// the fundraiser must have received at least what the contributor gave (else
/// the subtraction overflows and the program aborts).
pub open spec fn refund_outcome(
    f: Fundraiser,
    c: Contributor,
    vault: Result<TokenAccountState, FundraiserError>,
) -> Result<(), FundraiserError> {
    match vault {
        Err(e) => Err(e),
        Ok(v) => if target_met(v.amount, f.amount_to_raise@) {
            Err(FundraiserError::TargetMet)
        } else if le_value(c.amount@) > le_value(f.current_amount@) {
            Err(FundraiserError::ArithmeticOverflow)
        } else {
            Ok(())
        },
    }
}

/// The effect of a refund: the fundraiser with the contributor's amount taken
/// off what it has received, and the amount to transfer back from the vault.
#[derive(Clone, Copy, Debug, PartialEq, Eq)]
pub struct RefundUpdate {
    pub fundraiser: Fundraiser,
    pub transfer_amount: u64,
}

/// `u` refunds `c` from `f`: the fundraiser's received sum shrinks by what the
/// contributor gave, nothing else changes, and that sum is transferred back.
pub open spec fn records_refund(u: RefundUpdate, f: Fundraiser, c: Contributor) -> bool {
    &&& le_value(u.fundraiser.current_amount@) == le_value(f.current_amount@) - le_value(c.amount@)
    &&& u.fundraiser.maker == f.maker
    &&& u.fundraiser.mint_to_raise == f.mint_to_raise
    &&& u.fundraiser.amount_to_raise == f.amount_to_raise
    &&& u.fundraiser.time_started == f.time_started
    &&& u.fundraiser.duration == f.duration
    &&& u.fundraiser.bump == f.bump
    &&& u.transfer_amount == le_value(c.amount@)
}

/// Refunds the contributor `c` of the fundraiser `f`, given the vault (`Err`
/// where it could not be read).
pub fn apply_refund(
    f: &Fundraiser,
    c: &Contributor,
    vault: Result<TokenAccountState, FundraiserError>,
) -> (res: Result<RefundUpdate, FundraiserError>)
    ensures
        outcome_matches(res, refund_outcome(*f, *c, vault)),
        res matches Ok(u) ==> records_refund(u, *f, *c),
        res matches Ok(u) ==> u.transfer_amount == le_value(c.amount@),
{
    let vault_state = vault?;
    if is_target_met(vault_state.amount, &f.amount_to_raise) {
        return Err(FundraiserError::TargetMet);
    }
    if u64_from_le(c.amount) > u64_from_le(f.current_amount) {
        return Err(FundraiserError::ArithmeticOverflow);
    }
    let fundraiser = Fundraiser { current_amount: sub_le_bytes(f.current_amount, c.amount), ..*f };
    Ok(RefundUpdate { fundraiser, transfer_amount: u64_from_le(c.amount) })
}

/// The rest of Refund: reads the fundraiser and the contributor from their
/// accounts' data (each must have its account's size) and refunds.
pub fn settle_refund(
    fundraiser_data: &[u8],
    contributor_data: &[u8],
    vault: Result<TokenAccountState, FundraiserError>,
) -> (res: Result<RefundUpdate, FundraiserError>)
    ensures
        fundraiser_data@.len() != FUNDRAISER_LEN ==> res == Err::<RefundUpdate, FundraiserError>(
            FundraiserError::InvalidAccountData,
        ),
        fundraiser_data@.len() == FUNDRAISER_LEN && contributor_data@.len() != CONTRIBUTOR_LEN
            ==> res == Err::<RefundUpdate, FundraiserError>(FundraiserError::InvalidAccountData),
        fundraiser_data@.len() == FUNDRAISER_LEN && contributor_data@.len() == CONTRIBUTOR_LEN
            ==> exists|f: Fundraiser, c: Contributor|
            f.layout() == fundraiser_data@ && c.layout() == contributor_data@,
        forall|f: Fundraiser, c: Contributor|
            f.layout() == fundraiser_data@ && c.layout() == contributor_data@ ==> {
                &&& outcome_matches(res, refund_outcome(f, c, vault))
                &&& (res matches Ok(u) ==> records_refund(u, f, c))
            },
{
    let f = Fundraiser::from_account_info(fundraiser_data)?;
    let c = Contributor::from_account_info(contributor_data)?;
    let res = apply_refund(&f, &c, vault);
    proof {
        assert forall|f2: Fundraiser, c2: Contributor|
            f2.layout() == fundraiser_data@ && c2.layout() == contributor_data@ implies {
                &&& outcome_matches(res, refund_outcome(f2, c2, vault))
                &&& (res matches Ok(u) ==> records_refund(u, f2, c2))
            } by {
            lemma_fundraiser_layout_round_trip(f, f2);
            lemma_contributor_layout_round_trip(c, c2);
        }
    }
    res
}

/// A fundraiser is either paid out or refunded, never both: with the same
/// vault, the target check of Checker and that of Refund cannot both pass, and
/// one of them does.
pub proof fn lemma_payout_and_refund_exclusive(
    f: Fundraiser,
    c: Contributor,
    maker_ata: Result<TokenAccountState, FundraiserError>,
    vault: TokenAccountState,
    maker_is_signer: bool,
    maker: Seq<u8>,
    mint: Seq<u8>,
)
    ensures
        checker_outcome(f, maker_ata, Ok(vault), maker_is_signer, maker, mint) is Ok ==> refund_outcome(
            f,
            c,
            Ok(vault),
        ) == Err::<(), FundraiserError>(FundraiserError::TargetMet),
        refund_outcome(f, c, Ok(vault)) is Ok ==> checker_outcome(
            f,
            maker_ata,
            Ok(vault),
            maker_is_signer,
            maker,
            mint,
        ) is Err,
        target_met(vault.amount, f.amount_to_raise@) || refund_outcome(f, c, Ok(vault)) != Err::<
            (),
            FundraiserError,
        >(FundraiserError::TargetMet),
{
}

/// A refund undoes a contribution: when a contributor who had given nothing
/// contributes to a fundraiser and is then refunded, the fundraiser is back to
/// what it was, and the refund returns what was contributed.
pub proof fn lemma_refund_undoes_contribution(
    amount: nat,
    f: Fundraiser,
    c: Contributor,
    contributed: ContributeUpdate,
    refunded: RefundUpdate,
)
    requires
        le_value(c.amount@) == 0,
        records_contribution(contributed, amount, f, c),
        records_refund(refunded, contributed.fundraiser, contributed.contributor),
    ensures
        refunded.fundraiser == f,
        refunded.transfer_amount == amount,
{
    lemma_le_value_injective(refunded.fundraiser.current_amount@, f.current_amount@);
    assert(refunded.fundraiser.current_amount =~= f.current_amount);
}

/// The first checks of Refund pass exactly when the contributor's token
/// account could be read and is held by the contributor for the mint.
pub proof fn lemma_refund_ata_checks_pass(
    contributor_ata: Result<TokenAccountState, FundraiserError>,
    user: Seq<u8>,
    mint: Seq<u8>,
)
    ensures
        refund_ata_outcome(contributor_ata, user, mint) is Ok <==> (contributor_ata is Ok
            && contributor_ata->Ok_0.owner@ == user && contributor_ata->Ok_0.mint@ == mint),
{
}

/// Refund refuses because the target is met exactly when the vault's amount,
/// as eight little-endian bytes, does not come before the target's bytes: the
/// same test under which Checker pays out.
pub proof fn lemma_refund_refused_when_target_met(f: Fundraiser, c: Contributor, vault: TokenAccountState)
    ensures
        refund_outcome(f, c, Ok(vault)) == Err::<(), FundraiserError>(FundraiserError::TargetMet)
            <==> !lex_less(le_bytes(vault.amount as nat, 8), f.amount_to_raise@),
{
}

/// Refund succeeds exactly when the vault's amount comes before the target (as
/// byte strings) and the fundraiser has received at least what the contributor
/// gave.
pub proof fn lemma_refund_accepted(f: Fundraiser, c: Contributor, vault: TokenAccountState)
    ensures
        refund_outcome(f, c, Ok(vault)) is Ok <==> (lex_less(le_bytes(vault.amount as nat, 8), f.amount_to_raise@)
            && le_value(c.amount@) <= le_value(f.current_amount@)),
{
}

/// A refund moves one amount everywhere: the fundraiser's received sum shrinks
/// by exactly what is transferred back, which is what the contributor gave.
pub proof fn lemma_refund_conserves_tokens(u: RefundUpdate, f: Fundraiser, c: Contributor)
    requires
        records_refund(u, f, c),
    ensures
        le_value(u.fundraiser.current_amount@) + u.transfer_amount == le_value(f.current_amount@),
        u.transfer_amount == le_value(c.amount@),
{
}

} // verus!
