use vstd::prelude::*;

use crate::error::FundraiserError;
use crate::helpers::{copy_bytes, push_bytes};

verus! {

/// What a contributor has given to one fundraiser: the amount, as
/// little-endian bytes, and the bump of the contributor account's address.
#[derive(Clone, Copy, Debug, PartialEq, Eq)]
pub struct Contributor {
    pub amount: [u8; 8],
    pub bump: u8,
}

/// The size of a contributor account's data.
pub const CONTRIBUTOR_LEN: usize = 9;

impl Contributor {
    /// The bytes of a contributor account: the amount, then the bump.
    pub open spec fn layout(self) -> Seq<u8> {
        self.amount@ + seq![self.bump]
    }

    /// Reads a contributor from the data of its account. The data must be
    /// exactly `CONTRIBUTOR_LEN` bytes long; else the account is invalid.
    pub fn from_account_info(account_data: &[u8]) -> (res: Result<Contributor, FundraiserError>)
        ensures
            account_data@.len() == CONTRIBUTOR_LEN ==> (res matches Ok(c) && c.layout() == account_data@),
            res matches Ok(c) ==> c.amount@ == account_data@.subrange(0, 8) && c.bump == account_data@[8],
            account_data@.len() != CONTRIBUTOR_LEN ==> res == Err::<Contributor, FundraiserError>(
                FundraiserError::InvalidAccountData,
            ),
    {
        if account_data.len() != CONTRIBUTOR_LEN {
            return Err(FundraiserError::InvalidAccountData);
        }
        let amount: [u8; 8] = copy_bytes(account_data, 0);
        let c = Contributor { amount, bump: account_data[8] };
        assert(c.layout() =~= account_data@);
        proof {
            lemma_contributor_offsets(c);
        }
        Ok(c)
    }

    /// The data of the account that holds this contributor.
    pub fn to_bytes(&self) -> (data: Vec<u8>)
        ensures
            data@ == self.layout(),
            data@.len() == CONTRIBUTOR_LEN,
            data@.subrange(0, 8) == self.amount@,
            data@[8] == self.bump,
    {
        let mut data: Vec<u8> = Vec::new();
        push_bytes(&mut data, &self.amount);
        data.push(self.bump);
        proof {
            lemma_contributor_offsets(*self);
        }
        data
    }
}

impl Default for Contributor {
    /// A contributor who has given nothing: all its bytes are zero.
    fn default() -> (c: Contributor)
        ensures
            c.layout() == Seq::new(CONTRIBUTOR_LEN as nat, |i: int| 0u8),
            c.amount@ == Seq::new(8, |i: int| 0u8),
            c.bump == 0,
    {
        let c = Contributor { amount: [0u8; 8], bump: 0 };
        assert(c.layout() =~= Seq::new(CONTRIBUTOR_LEN as nat, |i: int| 0u8));
        assert(c.amount@ =~= Seq::new(8, |i: int| 0u8));
        c
    }
}

/// Where a contributor's fields lie in its account's data: the amount in the
/// first eight bytes, the bump in the ninth.
pub proof fn lemma_contributor_offsets(c: Contributor)
    ensures
        c.layout().len() == CONTRIBUTOR_LEN,
        c.layout().subrange(0, 8) == c.amount@,
        c.layout()[8] == c.bump,
{
    assert(c.layout().subrange(0, 8) =~= c.amount@);
}

/// Reading a contributor back from the bytes it was written to gives it back,
/// and writing a contributor read from an account's data gives that data back.
pub proof fn lemma_contributor_layout_round_trip(c: Contributor, d: Contributor)
    requires
        c.layout() == d.layout(),
    ensures
        c == d,
{
    assert(c.amount@ =~= c.layout().subrange(0, 8));
    assert(d.amount@ =~= d.layout().subrange(0, 8));
    assert(c.amount =~= d.amount);
    assert(c.layout()[8] == c.bump);
}

} // verus!
