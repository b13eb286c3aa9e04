//! An escrow and settlement protocol for single-unit assets: listings, bids,
//! acceptance and claims, decided as verified state transitions over plain
//! account views.

pub mod address;
pub mod bytes;
pub mod conservation;
pub mod derive;
pub mod error;
pub mod instruction;
pub mod lifecycle;
pub mod processor;
pub mod state;
pub mod token;

use vstd::prelude::*;

verus! {

use crate::address::Address;
use crate::error::ProcessError;
use crate::processor::{outcome_matches, process_spec, AccountView, Processor, Reserves, Step};

/// The program's entry: decides one request against the accounts it names.
pub fn process_instruction(
    program_id: &Address,
    accounts: &Vec<AccountView>,
    instruction_data: &[u8],
    reserves: &Reserves,
) -> (r: Result<Vec<Step>, ProcessError>)
    ensures
        outcome_matches(r, process_spec(*program_id, accounts@, instruction_data@, *reserves)),
{
    Processor::process(program_id, accounts, instruction_data, reserves)
}

} // verus!
