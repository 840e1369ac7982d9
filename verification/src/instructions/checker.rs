//! Paying a fundraiser out to its maker once the target is met.
use vstd::prelude::*;

use crate::accounts::TokenAccountState;
use crate::error::{outcome_matches, FundraiserError};
use crate::helpers::{
    byte_weight, bytes_equal, bytes_less, le_bytes, le_value, lemma_le_bytes_of_value, lemma_le_value_bound,
    lemma_lex_less_irreflexive, lex_less, u64_from_le, u64_to_le,
};
use crate::state::fundraiser::{Fundraiser, FUNDRAISER_LEN};

verus! {

/// Whether a vault holding `vault_amount` meets the target stored in
/// `target`, as the program decides it: the vault's amount, as eight
/// little-endian bytes, is not below the target's bytes in the lexicographic
/// order of byte arrays.
pub open spec fn target_met(vault_amount: u64, target: Seq<u8>) -> bool {
    !lex_less(le_bytes(vault_amount as nat, 8), target)
}

/// Whether a vault holding `vault_amount` meets the target stored in `target`
/// (see `target_met`).
pub fn is_target_met(vault_amount: u64, target: &[u8; 8]) -> (met: bool)
    ensures
        met == target_met(vault_amount, target@),
{
    let vault_bytes = u64_to_le(vault_amount);
    !bytes_less(&vault_bytes, target)
}

/// What Checker does first: the fundraiser it read, and whether the maker's
/// token account must be created.
#[derive(Clone, Copy, Debug, PartialEq, Eq)]
pub struct CheckerPlan {
    pub fundraiser: Fundraiser,
    pub create_maker_ata: bool,
}

/// The first step of Checker: reads the fundraiser from its account's data
/// (at least `FUNDRAISER_LEN` bytes, else invalid data), and asks to create the
/// maker's token account when that account has neither data nor lamports.
pub fn load_checker(fundraiser_data: &[u8], maker_ata_data_empty: bool, maker_ata_lamports: u64) -> (res: Result<CheckerPlan, FundraiserError>)
    ensures
        fundraiser_data@.len() < FUNDRAISER_LEN ==> res == Err::<CheckerPlan, FundraiserError>(
            FundraiserError::InvalidInstructionData,
        ),
        fundraiser_data@.len() >= FUNDRAISER_LEN ==> (res matches Ok(plan)
            && plan.fundraiser.layout() == fundraiser_data@.subrange(0, FUNDRAISER_LEN as int)
            && plan.create_maker_ata == (maker_ata_data_empty && maker_ata_lamports == 0)),
{
    match Fundraiser::read_prefix(fundraiser_data) {
        None => Err(FundraiserError::InvalidInstructionData),
        Some(fundraiser) => Ok(
            CheckerPlan {
                fundraiser,
                create_maker_ata: maker_ata_data_empty && maker_ata_lamports == 0,
            },
        ),
    }
}

/// How Checker ends: the maker's token account and the vault must be readable,
/// the maker must sign, the maker's token account must be the maker's and for
/// the mint, the fundraiser must raise that mint and be the maker's, and the
/// vault must meet the target (else the program aborts).
pub open spec fn checker_outcome(
    f: Fundraiser,
    maker_ata: Result<TokenAccountState, FundraiserError>,
    vault: Result<TokenAccountState, FundraiserError>,
    maker_is_signer: bool,
    maker: Seq<u8>,
    mint: Seq<u8>,
) -> Result<(), FundraiserError> {
    if maker_ata is Err {
        Err(maker_ata->Err_0)
    } else if vault is Err {
        Err(vault->Err_0)
    } else if !maker_is_signer {
        Err(FundraiserError::MissingRequiredSignature)
    } else if maker_ata->Ok_0.owner@ != maker {
        Err(FundraiserError::InvalidAccountOwner)
    } else if maker_ata->Ok_0.mint@ != mint {
        Err(FundraiserError::InvalidAccountOwner)
    } else if f.mint_to_raise@ != mint {
        Err(FundraiserError::InvalidInstructionData)
    } else if f.maker@ != maker {
        Err(FundraiserError::InvalidAccountOwner)
    } else if !target_met(vault->Ok_0.amount, f.amount_to_raise@) {
        Err(FundraiserError::TargetNotMet)
    } else {
        Ok(())
    }
}

/// The checks of Checker once the maker's token account exists; on success,
/// the amount to transfer from the vault to the maker: the target.
pub fn settle_checker(
    f: &Fundraiser,
    maker_ata: Result<TokenAccountState, FundraiserError>,
    vault: Result<TokenAccountState, FundraiserError>,
    maker_is_signer: bool,
    maker: &[u8; 32],
    mint: &[u8; 32],
) -> (res: Result<u64, FundraiserError>)
    ensures
        outcome_matches(res, checker_outcome(*f, maker_ata, vault, maker_is_signer, maker@, mint@)),
        res matches Ok(amount) ==> amount == le_value(f.amount_to_raise@),
{
    let maker_ata_state = maker_ata?;
    let vault_state = vault?;
    if !maker_is_signer {
        return Err(FundraiserError::MissingRequiredSignature);
    }
    if !bytes_equal(&maker_ata_state.owner, maker) {
        return Err(FundraiserError::InvalidAccountOwner);
    }
    if !bytes_equal(&maker_ata_state.mint, mint) {
        return Err(FundraiserError::InvalidAccountOwner);
    }
    if !bytes_equal(&f.mint_to_raise, mint) {
        return Err(FundraiserError::InvalidInstructionData);
    }
    if !bytes_equal(&f.maker, maker) {
        return Err(FundraiserError::InvalidAccountOwner);
    }
    if !is_target_met(vault_state.amount, &f.amount_to_raise) {
        return Err(FundraiserError::TargetNotMet);
    }
    Ok(u64_from_le(f.amount_to_raise))
}

/// Checker pays out exactly when the maker signs, the maker's token account is
/// the maker's and for the mint, the fundraiser raises that mint and is the
/// maker's, and the vault's amount, as eight little-endian bytes, does not
/// come before the target's bytes. The maker's token balance plays no part.
pub proof fn lemma_checker_pays_out(
    f: Fundraiser,
    maker_ata: TokenAccountState,
    vault: TokenAccountState,
    maker_is_signer: bool,
    maker: Seq<u8>,
    mint: Seq<u8>,
)
    ensures
        checker_outcome(f, Ok(maker_ata), Ok(vault), maker_is_signer, maker, mint) is Ok <==> {
            &&& maker_is_signer
            &&& maker_ata.owner@ == maker
            &&& maker_ata.mint@ == mint
            &&& f.mint_to_raise@ == mint
            &&& f.maker@ == maker
            &&& !lex_less(le_bytes(vault.amount as nat, 8), f.amount_to_raise@)
        },
{
}

/// The outcome of Checker does not depend on how many tokens the maker's
/// token account already holds.
pub proof fn lemma_checker_ignores_maker_balance(
    f: Fundraiser,
    a: TokenAccountState,
    b: TokenAccountState,
    vault: Result<TokenAccountState, FundraiserError>,
    maker_is_signer: bool,
    maker: Seq<u8>,
    mint: Seq<u8>,
)
    requires
        a.mint == b.mint,
        a.owner == b.owner,
    ensures
        checker_outcome(f, Ok(a), vault, maker_is_signer, maker, mint) == checker_outcome(
            f,
            Ok(b),
            vault,
            maker_is_signer,
            maker,
            mint,
        ),
{
}

/// A vault holding exactly the target meets it.
pub proof fn lemma_target_met_at_target(target: [u8; 8])
    ensures
        target_met(le_value(target@) as u64, target@),
{
    lemma_le_value_bound(target@);
    assert(byte_weight(8) == 0x1_0000_0000_0000_0000) by {
        reveal_with_fuel(byte_weight, 9);
    }
    lemma_le_bytes_of_value(target@);
    lemma_lex_less_irreflexive(target@);
}

} // verus!
