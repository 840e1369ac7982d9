//! The program's instructions: how an instruction is recognised, and, in the
//! submodules, what each one decides.
use vstd::prelude::*;

use crate::constants::PROGRAM_ID;
use crate::error::FundraiserError;
use crate::helpers::bytes_equal;

pub mod checker;
pub mod contribute;
pub mod initialize;
pub mod refund;

verus! {

/// The instructions of the program, by their first byte: `0` opens a
/// fundraiser, `1` contributes to it, `2` pays it out to its maker once the
/// target is met, `3` refunds a contributor while it is not.
#[derive(Clone, Copy, Debug, PartialEq, Eq, Structural)]
pub enum FundraiserInstructions {
    Initialize,
    Contribute,
    Checker,
    Refund,
}

/// The instruction that a first byte names, if any.
pub open spec fn instruction_of(value: u8) -> Option<FundraiserInstructions> {
    if value == 0 {
        Some(FundraiserInstructions::Initialize)
    } else if value == 1 {
        Some(FundraiserInstructions::Contribute)
    } else if value == 2 {
        Some(FundraiserInstructions::Checker)
    } else if value == 3 {
        Some(FundraiserInstructions::Refund)
    } else {
        None
    }
}

impl FundraiserInstructions {
    /// The first byte of the instruction's data.
    pub open spec fn spec_discriminator(self) -> u8 {
        match self {
            FundraiserInstructions::Initialize => 0,
            FundraiserInstructions::Contribute => 1,
            FundraiserInstructions::Checker => 2,
            FundraiserInstructions::Refund => 3,
        }
    }

    /// The number of accounts the instruction names; it may be given more.
    pub open spec fn spec_accounts_required(self) -> nat {
        match self {
            FundraiserInstructions::Initialize => 6,
            FundraiserInstructions::Contribute => 8,
            FundraiserInstructions::Checker => 7,
            FundraiserInstructions::Refund => 8,
        }
    }

    /// The instruction a first byte names; any other byte is invalid data.
    pub fn try_from(value: &u8) -> (res: Result<FundraiserInstructions, FundraiserError>)
        ensures
            res == (match instruction_of(*value) {
                Some(ix) => Ok(ix),
                None => Err(FundraiserError::InvalidInstructionData),
            }),
    {
        match *value {
            0 => Ok(FundraiserInstructions::Initialize),
            1 => Ok(FundraiserInstructions::Contribute),
            2 => Ok(FundraiserInstructions::Checker),
            3 => Ok(FundraiserInstructions::Refund),
            _ => Err(FundraiserError::InvalidInstructionData),
        }
    }

    /// The first byte of the instruction's data.
    pub fn discriminator(&self) -> (value: u8)
        ensures
            value == self.spec_discriminator(),
    {
        match self {
            FundraiserInstructions::Initialize => 0,
            FundraiserInstructions::Contribute => 1,
            FundraiserInstructions::Checker => 2,
            FundraiserInstructions::Refund => 3,
        }
    }

    /// Checks that the instruction was given at least the accounts it names.
    pub fn check_account_count(&self, count: usize) -> (res: Result<(), FundraiserError>)
        ensures
            res is Ok <==> count >= self.spec_accounts_required(),
            res is Err ==> res == Err::<(), FundraiserError>(FundraiserError::NotEnoughAccountKeys),
    {
        let required: usize = match self {
            FundraiserInstructions::Initialize => 6,
            FundraiserInstructions::Contribute => 8,
            FundraiserInstructions::Checker => 7,
            FundraiserInstructions::Refund => 8,
        };
        if count < required {
            Err(FundraiserError::NotEnoughAccountKeys)
        } else {
            Ok(())
        }
    }
}

/// Every instruction is recognised by its own first byte, and the first bytes
/// of two instructions differ.
pub proof fn lemma_discriminator_round_trip(ix: FundraiserInstructions, other: FundraiserInstructions)
    ensures
        instruction_of(ix.spec_discriminator()) == Some(ix),
        ix != other ==> ix.spec_discriminator() != other.spec_discriminator(),
{
}

/// Recognises the instruction that the program is called with: the call must
/// be addressed to this program (else the program aborts), and the data's first
/// byte names the instruction; the rest of the data is its payload.
pub fn decode_instruction(program_id: &[u8; 32], instruction_data: &[u8]) -> (res: Result<
    FundraiserInstructions,
    FundraiserError,
>)
    ensures
        program_id@ != PROGRAM_ID@ ==> res == Err::<FundraiserInstructions, FundraiserError>(
            FundraiserError::ProgramIdMismatch,
        ),
        program_id@ == PROGRAM_ID@ && instruction_data@.len() == 0 ==> res == Err::<
            FundraiserInstructions,
            FundraiserError,
        >(FundraiserError::InvalidInstructionData),
        program_id@ == PROGRAM_ID@ && instruction_data@.len() > 0 ==> res == (match instruction_of(
            instruction_data@[0],
        ) {
            Some(ix) => Ok(ix),
            None => Err(FundraiserError::InvalidInstructionData),
        }),
{
    let id = PROGRAM_ID;
    if !bytes_equal(program_id, &id) {
        return Err(FundraiserError::ProgramIdMismatch);
    }
    if instruction_data.len() == 0 {
        return Err(FundraiserError::InvalidInstructionData);
    }
    FundraiserInstructions::try_from(&instruction_data[0])
}

/// Moves the lamports of an account that is being closed to `receiver`:
/// the receiver's new balance, or an abort where the sum overflows.
pub fn reclaim_lamports(receiver: u64, closing: u64) -> (res: Result<u64, FundraiserError>)
    ensures
        receiver + closing <= u64::MAX ==> res == Ok::<u64, FundraiserError>((receiver + closing) as u64),
        receiver + closing > u64::MAX ==> res == Err::<u64, FundraiserError>(
            FundraiserError::ArithmeticOverflow,
        ),
{
    match receiver.checked_add(closing) {
        Some(total) => Ok(total),
        None => Err(FundraiserError::ArithmeticOverflow),
    }
}

} // verus!
