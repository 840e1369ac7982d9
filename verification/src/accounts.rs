//! What the instructions read of the token accounts they are given.
use vstd::prelude::*;

verus! {

/// The fields of an SPL token account that the program reads: its mint, its
/// owner and the amount it holds.
#[derive(Clone, Copy, Debug, PartialEq, Eq)]
pub struct TokenAccountState {
    pub mint: [u8; 32],
    pub owner: [u8; 32],
    pub amount: u64,
}

} // verus!
