use vstd::prelude::*;

verus! {

/// The program's address, `7dTBf2CHGabKL715FsRHyJqjQxVsMWVLYL51FknB1FKf`, as bytes.
pub const PROGRAM_ID: [u8; 32] = [
    98, 124, 162, 255, 56, 187, 7, 164, 160, 31, 51, 159, 211, 195, 244, 128,
    185, 220, 75, 168, 148, 141, 76, 211, 242, 219, 170, 9, 138, 123, 135, 178,
];

/// A fundraiser's target must exceed this number raised to the mint's decimals.
pub const MIN_AMOUNT_TO_RAISE: u64 = 3;

/// No contributor may give more than this share of the target, in hundredths.
pub const MAX_CONTRIBUTION_PERCENTAGE: u64 = 50;

/// The denominator of `MAX_CONTRIBUTION_PERCENTAGE`.
pub const PERCENTAGE_SCALER: u64 = 100;

/// Seconds in a day: a fundraiser's duration is counted in days.
pub const SECONDS_TO_DAYS: i64 = 86400;

/// The first seed of a fundraiser's address: the bytes of `"fundraiser"`.
pub const FUNDRAISER_SEED: [u8; 10] = [102, 117, 110, 100, 114, 97, 105, 115, 101, 114];

/// The first seed of a contributor's address: the bytes of `"contributor"`.
pub const CONTRIBUTOR_SEED: [u8; 11] = [99, 111, 110, 116, 114, 105, 98, 117, 116, 111, 114];

} // verus!
