use vstd::prelude::*;

use crate::error::FundraiserError;
use crate::helpers::{copy_bytes, push_bytes};

verus! {

/// A fundraiser: who opened it, the mint it raises, its target and what it
/// has received so far (little-endian amounts), when it started (a
/// little-endian Unix time), how many days it runs, and the bump of its
/// address.
#[derive(Clone, Copy, Debug, PartialEq, Eq)]
pub struct Fundraiser {
    pub maker: [u8; 32],
    pub mint_to_raise: [u8; 32],
    pub amount_to_raise: [u8; 8],
    pub current_amount: [u8; 8],
    pub time_started: [u8; 8],
    pub duration: u8,
    pub bump: u8,
}

/// The size of a fundraiser account's data.
pub const FUNDRAISER_LEN: usize = 90;

impl Fundraiser {
    /// The bytes of a fundraiser account: the fields in order, each as its bytes.
    pub open spec fn layout(self) -> Seq<u8> {
        self.maker@ + self.mint_to_raise@ + self.amount_to_raise@ + self.current_amount@
            + self.time_started@ + seq![self.duration, self.bump]
    }

    /// Reads a fundraiser from the first `FUNDRAISER_LEN` bytes of `data`,
    /// ignoring any that follow; `None` when `data` is shorter.
    pub fn read_prefix(data: &[u8]) -> (res: Option<Fundraiser>)
        ensures
            data@.len() >= FUNDRAISER_LEN ==> (res matches Some(f) && f.layout() == data@.subrange(
                0,
                FUNDRAISER_LEN as int,
            )),
            data@.len() < FUNDRAISER_LEN ==> res is None,
            res matches Some(f) ==> (data@.len() >= FUNDRAISER_LEN && data@.subrange(0, 32) == f.maker@
                && data@.subrange(32, 64) == f.mint_to_raise@ && data@.subrange(64, 72) == f.amount_to_raise@
                && data@.subrange(72, 80) == f.current_amount@ && data@.subrange(80, 88) == f.time_started@
                && data@[88] == f.duration && data@[89] == f.bump),
    {
        if data.len() < FUNDRAISER_LEN {
            return None;
        }
        let maker: [u8; 32] = copy_bytes(data, 0);
        let mint_to_raise: [u8; 32] = copy_bytes(data, 32);
        let amount_to_raise: [u8; 8] = copy_bytes(data, 64);
        let current_amount: [u8; 8] = copy_bytes(data, 72);
        let time_started: [u8; 8] = copy_bytes(data, 80);
        let f = Fundraiser {
            maker,
            mint_to_raise,
            amount_to_raise,
            current_amount,
            time_started,
            duration: data[88],
            bump: data[89],
        };
        assert(f.layout() =~= data@.subrange(0, FUNDRAISER_LEN as int));
        proof {
            lemma_fundraiser_offsets(f);
            let l = f.layout();
            assert(data@.subrange(0, 32) =~= l.subrange(0, 32));
            assert(data@.subrange(32, 64) =~= l.subrange(32, 64));
            assert(data@.subrange(64, 72) =~= l.subrange(64, 72));
            assert(data@.subrange(72, 80) =~= l.subrange(72, 80));
            assert(data@.subrange(80, 88) =~= l.subrange(80, 88));
            assert(data@[88] == l[88] && data@[89] == l[89]);
        }
        Some(f)
    }

    /// Reads a fundraiser from the data of its account. The data must be
    /// exactly `FUNDRAISER_LEN` bytes long; else the account is invalid.
    pub fn from_account_info(account_data: &[u8]) -> (res: Result<Fundraiser, FundraiserError>)
        ensures
            account_data@.len() == FUNDRAISER_LEN ==> (res matches Ok(f) && f.layout()
                == account_data@),
            account_data@.len() != FUNDRAISER_LEN ==> res == Err::<Fundraiser, FundraiserError>(
                FundraiserError::InvalidAccountData,
            ),
            res matches Ok(f) ==> (account_data@.len() >= FUNDRAISER_LEN && account_data@.subrange(0, 32) == f.maker@
                && account_data@.subrange(32, 64) == f.mint_to_raise@ && account_data@.subrange(64, 72) == f.amount_to_raise@
                && account_data@.subrange(72, 80) == f.current_amount@ && account_data@.subrange(80, 88) == f.time_started@
                && account_data@[88] == f.duration && account_data@[89] == f.bump),
    {
        if account_data.len() != FUNDRAISER_LEN {
            return Err(FundraiserError::InvalidAccountData);
        }
        match Fundraiser::read_prefix(account_data) {
            Some(f) => {
                assert(account_data@.subrange(0, FUNDRAISER_LEN as int) =~= account_data@);
                Ok(f)
            },
            None => Err(FundraiserError::InvalidAccountData),
        }
    }

    /// The data of the account that holds this fundraiser.
    pub fn to_bytes(&self) -> (data: Vec<u8>)
        ensures
            data@ == self.layout(),
            data@.len() == FUNDRAISER_LEN,
            data@.len() >= FUNDRAISER_LEN && data@.subrange(0, 32) == self.maker@
                && data@.subrange(32, 64) == self.mint_to_raise@ && data@.subrange(64, 72) == self.amount_to_raise@
                && data@.subrange(72, 80) == self.current_amount@ && data@.subrange(80, 88) == self.time_started@
                && data@[88] == self.duration && data@[89] == self.bump,
    {
        let mut data: Vec<u8> = Vec::new();
        push_bytes(&mut data, &self.maker);
        push_bytes(&mut data, &self.mint_to_raise);
        push_bytes(&mut data, &self.amount_to_raise);
        push_bytes(&mut data, &self.current_amount);
        push_bytes(&mut data, &self.time_started);
        data.push(self.duration);
        data.push(self.bump);
        assert(data@ =~= self.layout());
        proof {
            lemma_fundraiser_offsets(*self);
        }
        data
    }
}

/// Where a fundraiser's fields lie in its account's data: the maker in bytes
/// 0..32, the mint in 32..64, the target in 64..72, the amount raised in
/// 72..80, the start time in 80..88, the duration at 88 and the bump at 89.
pub open spec fn fields_at_offsets(f: Fundraiser, data: Seq<u8>) -> bool {
    &&& data.len() >= FUNDRAISER_LEN
    &&& data.subrange(0, 32) == f.maker@
    &&& data.subrange(32, 64) == f.mint_to_raise@
    &&& data.subrange(64, 72) == f.amount_to_raise@
    &&& data.subrange(72, 80) == f.current_amount@
    &&& data.subrange(80, 88) == f.time_started@
    &&& data[88] == f.duration
    &&& data[89] == f.bump
}

/// A fundraiser's bytes hold its fields at their offsets.
pub proof fn lemma_fundraiser_offsets(f: Fundraiser)
    ensures
        f.layout().len() == FUNDRAISER_LEN,
        fields_at_offsets(f, f.layout()),
{
    let l = f.layout();
    assert(l.subrange(0, 32) =~= f.maker@);
    assert(l.subrange(32, 64) =~= f.mint_to_raise@);
    assert(l.subrange(64, 72) =~= f.amount_to_raise@);
    assert(l.subrange(72, 80) =~= f.current_amount@);
    assert(l.subrange(80, 88) =~= f.time_started@);
}

/// Two fundraisers with the same bytes are the same fundraiser: reading back
/// what `to_bytes` wrote gives the fundraiser back.
pub proof fn lemma_fundraiser_layout_round_trip(f: Fundraiser, g: Fundraiser)
    requires
        f.layout() == g.layout(),
    ensures
        f == g,
{
    let l = f.layout();
    assert(f.maker@ =~= l.subrange(0, 32));
    assert(g.maker@ =~= l.subrange(0, 32));
    assert(f.mint_to_raise@ =~= l.subrange(32, 64));
    assert(g.mint_to_raise@ =~= l.subrange(32, 64));
    assert(f.amount_to_raise@ =~= l.subrange(64, 72));
    assert(g.amount_to_raise@ =~= l.subrange(64, 72));
    assert(f.current_amount@ =~= l.subrange(72, 80));
    assert(g.current_amount@ =~= l.subrange(72, 80));
    assert(f.time_started@ =~= l.subrange(80, 88));
    assert(g.time_started@ =~= l.subrange(80, 88));
    assert(f.maker =~= g.maker);
    assert(f.mint_to_raise =~= g.mint_to_raise);
    assert(f.amount_to_raise =~= g.amount_to_raise);
    assert(f.current_amount =~= g.current_amount);
    assert(f.time_started =~= g.time_started);
    assert(l[88] == f.duration && l[88] == g.duration);
    assert(l[89] == f.bump && l[89] == g.bump);
}

} // verus!
