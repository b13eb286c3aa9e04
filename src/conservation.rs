use vstd::prelude::*;
use crate::address::Address;
use crate::processor::{accept_bid_spec, bid_spec, claim_spec, list_spec, process_spec, AccountView, Reserves, StepModel};
use crate::state::bid_amount;

verus! {

/// Currency that a step takes out of some account.
pub open spec fn step_out(st: StepModel) -> int {
    match st {
        StepModel::CreateAccount { lamports, .. } => lamports as int,
        StepModel::SystemTransfer { amount, .. } => amount as int,
        StepModel::Debit { amount, .. } => amount as int,
        _ => 0,
    }
}

/// Currency that a step puts into some account.
pub open spec fn step_in(st: StepModel) -> int {
    match st {
        StepModel::CreateAccount { lamports, .. } => lamports as int,
        StepModel::SystemTransfer { amount, .. } => amount as int,
        StepModel::Credit { amount, .. } => amount as int,
        _ => 0,
    }
}

/// Currency that a step takes out of the account `who`.
pub open spec fn step_paid(st: StepModel, who: Seq<u8>) -> int {
    match st {
        StepModel::CreateAccount { payer, lamports, .. } => if payer == who { lamports as int } else { 0 },
        StepModel::SystemTransfer { from, amount, .. } => if from == who { amount as int } else { 0 },
        StepModel::Debit { account, amount } => if account == who { amount as int } else { 0 },
        _ => 0,
    }
}

/// Currency that a step puts into the account `who`.
pub open spec fn step_received(st: StepModel, who: Seq<u8>) -> int {
    match st {
        StepModel::CreateAccount { account, lamports, .. } => if account == who { lamports as int } else { 0 },
        StepModel::SystemTransfer { to, amount, .. } => if to == who { amount as int } else { 0 },
        StepModel::Credit { account, amount } => if account == who { amount as int } else { 0 },
        _ => 0,
    }
}

pub open spec fn total_out(s: Seq<StepModel>) -> int
    decreases s.len(),
{
    if s.len() == 0 { 0 } else { total_out(s.drop_last()) + step_out(s.last()) }
}

pub open spec fn total_in(s: Seq<StepModel>) -> int
    decreases s.len(),
{
    if s.len() == 0 { 0 } else { total_in(s.drop_last()) + step_in(s.last()) }
}

pub open spec fn paid_by(s: Seq<StepModel>, who: Seq<u8>) -> int
    decreases s.len(),
{
    if s.len() == 0 { 0 } else { paid_by(s.drop_last(), who) + step_paid(s.last(), who) }
}

pub open spec fn received_by(s: Seq<StepModel>, who: Seq<u8>) -> int
    decreases s.len(),
{
    if s.len() == 0 { 0 } else { received_by(s.drop_last(), who) + step_received(s.last(), who) }
}

/// No request creates or destroys currency: whatever its steps take out of
/// accounts they put into accounts (a closed custody account hands its whole
/// balance on, inside the host).
pub proof fn lemma_process_conserves_value(program_id: Address, acc: Seq<AccountView>, data: Seq<u8>, res: Reserves)
    requires
        process_spec(program_id, acc, data, res) is Ok,
    ensures
        total_out(process_spec(program_id, acc, data, res)->Ok_0) == total_in(process_spec(program_id, acc, data, res)->Ok_0),
{
    let s = process_spec(program_id, acc, data, res)->Ok_0;
    reveal_with_fuel(total_out, 6);
    reveal_with_fuel(total_in, 6);
}

/// A bid and its acceptance conserve currency: the bidder pays the amount and
/// both reserves into the escrow; on acceptance the seller receives exactly the
/// amount and the bidder exactly the reserves back.
pub proof fn lemma_settlement_conserves_value(
    program_id: Address,
    bid_acc: Seq<AccountView>,
    amount: u64,
    res: Reserves,
    accept_acc: Seq<AccountView>,
)
    requires
        bid_spec(bid_acc, amount, program_id, res) is Ok,
        accept_bid_spec(accept_acc, program_id) is Ok,
        accept_acc[2].key == bid_acc[0].key,
        accept_acc[3].lamports == res.bid_state,
        accept_acc[4].lamports == res.bid_vault + amount,
        bid_amount(accept_acc[3].data@) == amount,
        accept_acc[0].key.bytes@ != accept_acc[2].key.bytes@,
    ensures
        ({
            let b = bid_spec(bid_acc, amount, program_id, res)->Ok_0;
            let a = accept_bid_spec(accept_acc, program_id)->Ok_0;
            let (bidder, seller) = (bid_acc[0].key.bytes@, accept_acc[0].key.bytes@);
            &&& paid_by(b, bidder) == amount + res.bid_state + res.bid_vault
            &&& received_by(a, seller) == amount
            &&& received_by(a, bidder) == res.bid_state + res.bid_vault
            &&& paid_by(b, bidder) == received_by(a, seller) + received_by(a, bidder)
        }),
{
    reveal_with_fuel(paid_by, 6);
    reveal_with_fuel(received_by, 6);
}

/// A listing's reserves go back to its seller: what the seller paid to open the
/// escrow is exactly what the claim that closes it credits to the seller.
pub proof fn lemma_listing_reserves_returned(
    program_id: Address,
    list_acc: Seq<AccountView>,
    amount: u64,
    res: Reserves,
    claim_acc: Seq<AccountView>,
)
    requires
        list_spec(list_acc, amount, program_id, res) is Ok,
        claim_spec(claim_acc, program_id) is Ok,
        claim_acc[3].key == list_acc[0].key,
        claim_acc[4].lamports == res.list_state,
        claim_acc[5].lamports == res.token_account,
        claim_acc[0].key.bytes@ != claim_acc[3].key.bytes@,
    ensures
        ({
            let l = list_spec(list_acc, amount, program_id, res)->Ok_0;
            let c = claim_spec(claim_acc, program_id)->Ok_0;
            let seller = list_acc[0].key.bytes@;
            &&& paid_by(l, seller) == res.list_state + res.token_account
            &&& received_by(c, seller) == res.list_state + res.token_account
        }),
{
    reveal_with_fuel(paid_by, 6);
    reveal_with_fuel(received_by, 6);
}

} // verus!
