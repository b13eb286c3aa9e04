use vstd::prelude::*;
use crate::address::Address;
use crate::processor::{accept_bid_spec, bid_spec, claim_spec, delist_spec, list_spec, AccountView, Reserves};
use crate::state::{list_buyer, list_lister, list_settled, BIDESCROWSTATE, LISTESCROWSTATE};

verus! {

/// Once a listing for (asset, seller) is open, listing the same pair again
/// fails: the only account that can hold that listing now holds its record.
pub proof fn lemma_second_list_fails(
    program_id: Address,
    first: Seq<AccountView>,
    amount1: u64,
    res1: Reserves,
    second: Seq<AccountView>,
    amount2: u64,
    res2: Reserves,
)
    requires
        list_spec(first, amount1, program_id, res1) is Ok,
        second.len() >= 9,
        second[0].key.bytes@ == first[0].key.bytes@,
        second[2].key.bytes@ == first[2].key.bytes@,
        second[3].key.bytes@ == first[3].key.bytes@ ==> second[3].data@.len() == LISTESCROWSTATE,
    ensures
        list_spec(second, amount2, program_id, res2) is Err,
{
}

/// Once a bid for (asset, bidder) is open, bidding again on the same pair
/// fails: the only account that can hold that bid now holds its record.
pub proof fn lemma_second_bid_fails(
    program_id: Address,
    first: Seq<AccountView>,
    amount1: u64,
    res1: Reserves,
    second: Seq<AccountView>,
    amount2: u64,
    res2: Reserves,
)
    requires
        bid_spec(first, amount1, program_id, res1) is Ok,
        second.len() >= 7,
        second[0].key.bytes@ == first[0].key.bytes@,
        second[1].key.bytes@ == first[1].key.bytes@,
        second[2].key.bytes@ == first[2].key.bytes@ ==> second[2].data@.len() == BIDESCROWSTATE,
    ensures
        bid_spec(second, amount2, program_id, res2) is Err,
{
}

/// The listing's state gates its transitions: a settled listing cannot be
/// withdrawn; only the recorded buyer can claim, and only once settled; only
/// the seller can accept a bid, and only while unsettled.
pub proof fn lemma_lifecycle_guards(program_id: Address, acc: Seq<AccountView>)
    ensures
        acc.len() >= 7 && list_settled(acc[3].data@) ==> delist_spec(acc, program_id) is Err,
        acc.len() >= 7 && (!list_settled(acc[4].data@) || list_buyer(acc[4].data@) != acc[0].key.bytes@)
            ==> claim_spec(acc, program_id) is Err,
        acc.len() >= 7 && (list_lister(acc[5].data@) != acc[0].key.bytes@ || list_settled(acc[5].data@))
            ==> accept_bid_spec(acc, program_id) is Err,
{
}

} // verus!
