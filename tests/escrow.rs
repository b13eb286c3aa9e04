use nft_escrow::address::Address;
use nft_escrow::derive::{derive_escrow, derive_platform, escrow_seed_vec, find_program_address, platform_seed_vec, signer_seeds, EscrowKind, Purpose, Signer};
use nft_escrow::error::{NFTError, ProcessError};
use nft_escrow::process_instruction;
use nft_escrow::processor::{AccountView, Processor, Reserves, Step};
use nft_escrow::state::{BidEscrowState, ListEscrowState, PlatformState};
use nft_escrow::token::{system_program_id, token_program_id, TokenHolding};

const SELLER_FUNDS: u64 = 50_000_000;
const BIDDER_FUNDS: u64 = 40_000_000;

fn addr(b: u8) -> Address {
    Address::new_from_array([b; 32])
}

fn program() -> Address {
    addr(200)
}

fn reserves() -> Reserves {
    Reserves { platform_state: 1_231_200, list_state: 1_621_680, token_account: 2_039_280, bid_state: 1_392_000, bid_vault: 890_880 }
}

fn view(key: Address, owner: Address, is_signer: bool, lamports: u64, data: Vec<u8>) -> AccountView {
    AccountView { key, owner, is_signer, lamports, data }
}

fn empty(key: Address) -> AccountView {
    view(key, system_program_id(), false, 0, vec![])
}

fn token_data(mint: &Address, owner: &Address) -> Vec<u8> {
    let mut d = vec![0u8; 165];
    d[..32].copy_from_slice(&mint.bytes);
    d[32..64].copy_from_slice(&owner.bytes);
    d[108] = 1;
    d
}

fn escrow(mint: &Address, party: &Address, kind: EscrowKind, purpose: Purpose) -> Address {
    derive_escrow(&program(), mint, party, kind, purpose).unwrap().0
}

fn with_amount(op: u8, amount: u64) -> Vec<u8> {
    let mut d = vec![op];
    d.extend_from_slice(&amount.to_be_bytes());
    d
}

fn listing_bytes(rec: ListEscrowState) -> Vec<u8> {
    let mut buf = vec![0u8; 105];
    ListEscrowState::pack(rec, &mut buf).unwrap();
    buf
}

fn bid_bytes(rec: BidEscrowState) -> Vec<u8> {
    let mut buf = vec![0u8; 72];
    BidEscrowState::pack(rec, &mut buf).unwrap();
    buf
}

struct Parties {
    seller: Address,
    bidder: Address,
    mint: Address,
    seller_token: Address,
    bidder_token: Address,
}

fn parties() -> Parties {
    Parties { seller: addr(1), bidder: addr(2), mint: addr(3), seller_token: addr(4), bidder_token: addr(5) }
}

fn list_accounts(p: &Parties) -> Vec<AccountView> {
    vec![
        view(p.seller, system_program_id(), true, SELLER_FUNDS, vec![]),
        view(p.seller_token, token_program_id(), false, 2_039_280, token_data(&p.mint, &p.seller)),
        view(p.mint, token_program_id(), false, 1_461_600, vec![0u8; 82]),
        empty(escrow(&p.mint, &p.seller, EscrowKind::List, Purpose::State)),
        empty(escrow(&p.mint, &p.seller, EscrowKind::List, Purpose::Vault)),
        empty(program()),
        empty(token_program_id()),
        empty(system_program_id()),
        empty(addr(99)),
    ]
}

fn accept_accounts(p: &Parties, seller: Address, listing: ListEscrowState) -> Vec<AccountView> {
    let r = reserves();
    vec![
        view(seller, system_program_id(), true, SELLER_FUNDS, vec![]),
        view(p.mint, token_program_id(), false, 1_461_600, vec![0u8; 82]),
        view(p.bidder, system_program_id(), false, BIDDER_FUNDS, vec![]),
        view(
            escrow(&p.mint, &p.bidder, EscrowKind::Bid, Purpose::State),
            program(),
            false,
            r.bid_state,
            bid_bytes(BidEscrowState { bidder: p.bidder, mint: p.mint, amount: 80 }),
        ),
        view(escrow(&p.mint, &p.bidder, EscrowKind::Bid, Purpose::Vault), program(), false, r.bid_vault + 80, vec![]),
        view(escrow(&p.mint, &seller, EscrowKind::List, Purpose::State), program(), false, r.list_state, listing_bytes(listing)),
        view(escrow(&p.mint, &seller, EscrowKind::List, Purpose::Vault), token_program_id(), false, r.token_account, vec![0u8; 165]),
    ]
}

fn open_listing(p: &Parties) -> ListEscrowState {
    ListEscrowState { lister: p.seller, mint: p.mint, amount: 100, success: false, successful_buyer: Address::zero() }
}

fn settled_listing(p: &Parties) -> ListEscrowState {
    ListEscrowState { lister: p.seller, mint: p.mint, amount: 80, success: true, successful_buyer: p.bidder }
}

fn claim_accounts(p: &Parties, caller: Address, caller_token: Address, listing: ListEscrowState) -> Vec<AccountView> {
    let r = reserves();
    vec![
        view(caller, system_program_id(), true, BIDDER_FUNDS, vec![]),
        view(caller_token, token_program_id(), false, 2_039_280, token_data(&p.mint, &caller)),
        view(p.mint, token_program_id(), false, 1_461_600, vec![0u8; 82]),
        view(p.seller, system_program_id(), false, SELLER_FUNDS, vec![]),
        view(escrow(&p.mint, &p.seller, EscrowKind::List, Purpose::State), program(), false, r.list_state, listing_bytes(listing)),
        view(escrow(&p.mint, &p.seller, EscrowKind::List, Purpose::Vault), token_program_id(), false, r.token_account, vec![0u8; 165]),
        empty(token_program_id()),
    ]
}

#[test]
fn derivation_is_deterministic() {
    let seeds = escrow_seed_vec(&addr(3), &addr(1), EscrowKind::List, Purpose::State);
    let a = find_program_address(&seeds, &program()).unwrap();
    let b = find_program_address(&seeds, &program()).unwrap();
    assert_eq!(a.0, b.0);
    assert_eq!(a.1, b.1);
    let vault = escrow(&addr(3), &addr(1), EscrowKind::List, Purpose::Vault);
    assert_ne!(a.0, vault);
    let bid = escrow(&addr(3), &addr(1), EscrowKind::Bid, Purpose::State);
    assert_ne!(a.0, bid);
    let platform = derive_platform(&program()).unwrap();
    assert_eq!(find_program_address(&platform_seed_vec(), &program()).unwrap().0, platform.0);
}

#[test]
fn seeds_are_the_documented_tuples() {
    let s = escrow_seed_vec(&addr(3), &addr(1), EscrowKind::Bid, Purpose::Vault);
    assert_eq!(s, vec![vec![3u8; 32], vec![1u8; 32], b"Bid".to_vec(), b"Vault".to_vec()]);
    assert_eq!(platform_seed_vec(), vec![b"Platform".to_vec(), b"State".to_vec()]);
    let signed = signer_seeds(&Signer::Escrow { asset: addr(3), party: addr(1), kind: EscrowKind::List, purpose: Purpose::State, bump: 254 });
    assert_eq!(signed, vec![vec![3u8; 32], vec![1u8; 32], b"List".to_vec(), b"State".to_vec(), vec![254u8]]);
}

#[test]
fn service_identities() {
    assert_eq!(system_program_id(), Address::new_from_array([0u8; 32]));
    let t = token_program_id();
    assert_eq!(t.bytes[0], 6);
    assert_eq!(t.bytes[31], 169);
}

#[test]
fn token_holding_reads_mint_and_owner() {
    let h = TokenHolding::unpack(&token_data(&addr(3), &addr(1))).unwrap();
    assert_eq!(h.mint, addr(3));
    assert_eq!(h.owner, addr(1));
    let mut bad = token_data(&addr(3), &addr(1));
    bad[108] = 3;
    assert_eq!(TokenHolding::unpack(&bad).unwrap_err(), ProcessError::InvalidAccountData);
    let mut bad_tag = token_data(&addr(3), &addr(1));
    bad_tag[72] = 2;
    assert_eq!(TokenHolding::unpack(&bad_tag).unwrap_err(), ProcessError::InvalidAccountData);
    assert_eq!(TokenHolding::unpack(&[0u8; 164]).unwrap_err(), ProcessError::InvalidAccountData);
}

#[test]
fn initialize_creates_platform_record() {
    let platform = derive_platform(&program()).unwrap().0;
    let accounts = vec![
        view(addr(1), system_program_id(), true, SELLER_FUNDS, vec![]),
        empty(platform),
        empty(program()),
        empty(system_program_id()),
        empty(addr(99)),
    ];
    let mut data = vec![0u8];
    data.extend_from_slice(&[8u8; 32]);
    data.extend_from_slice(&25u64.to_be_bytes());
    let steps = process_instruction(&program(), &accounts, &data, &reserves()).unwrap();
    assert_eq!(steps.len(), 2);
    match steps[0] {
        Step::CreateAccount { payer, account, lamports, space, owner, .. } => {
            assert_eq!(payer, addr(1));
            assert_eq!(account, platform);
            assert_eq!(lamports, 1_231_200);
            assert_eq!(space, 49);
            assert_eq!(owner, program());
        }
        other => panic!("unexpected {:?}", other),
    }
    match steps[1] {
        Step::WritePlatform { record, .. } => {
            assert!(record.is_initialized);
            assert_eq!(record.authority, addr(8));
            assert_eq!(record.platform_fee, 25);
            assert_eq!(record.nonce, 0);
        }
        other => panic!("unexpected {:?}", other),
    }
}

fn platform_accounts(signer: Address, authority: Address, initialized: bool) -> Vec<AccountView> {
    let mut buf = vec![0u8; 49];
    PlatformState::pack(PlatformState { is_initialized: initialized, authority, platform_fee: 5, nonce: 0 }, &mut buf).unwrap();
    vec![
        view(signer, system_program_id(), true, 1, vec![]),
        view(derive_platform(&program()).unwrap().0, program(), false, 1_231_200, buf),
    ]
}

#[test]
fn change_fee_and_authority_by_current_authority() {
    let accounts = platform_accounts(addr(8), addr(8), true);
    let steps = Processor::process(&program(), &accounts, &with_amount(2, 40), &reserves()).unwrap();
    match steps[0] {
        Step::WritePlatform { record, .. } => {
            assert_eq!(record.platform_fee, 40);
            assert_eq!(record.authority, addr(8));
        }
        other => panic!("unexpected {:?}", other),
    }
    let mut data = vec![1u8];
    data.extend_from_slice(&[9u8; 32]);
    let steps = Processor::process(&program(), &accounts, &data, &reserves()).unwrap();
    match steps[0] {
        Step::WritePlatform { record, .. } => {
            assert_eq!(record.platform_fee, 5);
            assert_eq!(record.authority, addr(9));
        }
        other => panic!("unexpected {:?}", other),
    }
}

#[test]
fn config_changes_refused_to_others() {
    let accounts = platform_accounts(addr(7), addr(8), true);
    assert_eq!(
        Processor::process(&program(), &accounts, &with_amount(2, 40), &reserves()).unwrap_err(),
        ProcessError::Custom(NFTError::InvalidAuthority)
    );
    let uninit = platform_accounts(addr(8), addr(8), false);
    assert_eq!(
        Processor::process(&program(), &uninit, &with_amount(2, 40), &reserves()).unwrap_err(),
        ProcessError::UninitializedAccount
    );
    let mut unsigned = platform_accounts(addr(8), addr(8), true);
    unsigned[0].is_signer = false;
    assert_eq!(
        Processor::process(&program(), &unsigned, &with_amount(2, 40), &reserves()).unwrap_err(),
        ProcessError::MissingRequiredSignature
    );
    let mut wrong_key = platform_accounts(addr(8), addr(8), true);
    wrong_key[1].key = addr(77);
    assert_eq!(
        Processor::process(&program(), &wrong_key, &with_amount(2, 40), &reserves()).unwrap_err(),
        ProcessError::InvalidInstructionData
    );
    assert_eq!(
        Processor::process(&program(), &accounts[..1].to_vec(), &with_amount(2, 40), &reserves()).unwrap_err(),
        ProcessError::NotEnoughAccountKeys
    );
}

#[test]
fn list_moves_asset_into_escrow() {
    let p = parties();
    let accounts = list_accounts(&p);
    let state = accounts[3].key;
    let vault = accounts[4].key;
    let steps = Processor::process(&program(), &accounts, &with_amount(3, 100), &reserves()).unwrap();
    assert_eq!(steps.len(), 5);
    match steps[0] {
        Step::CreateAccount { payer, account, lamports, space, owner, .. } => {
            assert_eq!((payer, account, lamports, space, owner), (p.seller, state, 1_621_680, 105, program()));
        }
        other => panic!("unexpected {:?}", other),
    }
    match steps[1] {
        Step::CreateAccount { account, lamports, space, owner, .. } => {
            assert_eq!((account, lamports, space, owner), (vault, 2_039_280, 165, token_program_id()));
        }
        other => panic!("unexpected {:?}", other),
    }
    match steps[2] {
        Step::InitializeTokenAccount { account, mint, owner } => assert_eq!((account, mint, owner), (vault, p.mint, state)),
        other => panic!("unexpected {:?}", other),
    }
    match steps[3] {
        Step::TokenTransfer { source, destination, authority, signer, .. } => {
            assert_eq!((source, destination, authority), (p.seller_token, vault, p.seller));
            assert!(signer.is_none());
        }
        other => panic!("unexpected {:?}", other),
    }
    match steps[4] {
        Step::WriteListing { account, record } => {
            assert_eq!(account, state);
            assert_eq!(record.lister, p.seller);
            assert_eq!(record.amount, 100);
            assert!(!record.success);
            assert_eq!(record.successful_buyer, Address::zero());
        }
        other => panic!("unexpected {:?}", other),
    }
}

#[test]
fn second_list_of_same_pair_fails() {
    let p = parties();
    let mut accounts = list_accounts(&p);
    accounts[3].lamports = 1_621_680;
    accounts[3].data = listing_bytes(open_listing(&p));
    assert_eq!(
        Processor::process(&program(), &accounts, &with_amount(3, 120), &reserves()).unwrap_err(),
        ProcessError::AccountAlreadyInUse
    );
}

#[test]
fn list_rejects_foreign_custody_account() {
    let p = parties();
    let mut accounts = list_accounts(&p);
    accounts[1].data = token_data(&p.mint, &p.bidder);
    assert_eq!(
        Processor::process(&program(), &accounts, &with_amount(3, 100), &reserves()).unwrap_err(),
        ProcessError::InvalidAccountData
    );
    let mut wrong_state = list_accounts(&p);
    wrong_state[3].key = addr(77);
    assert_eq!(
        Processor::process(&program(), &wrong_state, &with_amount(3, 100), &reserves()).unwrap_err(),
        ProcessError::InvalidAccountData
    );
}

fn bid_accounts(p: &Parties) -> Vec<AccountView> {
    vec![
        view(p.bidder, system_program_id(), true, BIDDER_FUNDS, vec![]),
        view(p.mint, token_program_id(), false, 1_461_600, vec![0u8; 82]),
        empty(escrow(&p.mint, &p.bidder, EscrowKind::Bid, Purpose::State)),
        empty(escrow(&p.mint, &p.bidder, EscrowKind::Bid, Purpose::Vault)),
        empty(program()),
        empty(system_program_id()),
        empty(addr(99)),
    ]
}

#[test]
fn bid_deposits_amount_into_vault() {
    let p = parties();
    let accounts = bid_accounts(&p);
    let steps = Processor::process(&program(), &accounts, &with_amount(5, 80), &reserves()).unwrap();
    assert_eq!(steps.len(), 4);
    match steps[1] {
        Step::CreateAccount { account, lamports, space, .. } => assert_eq!((account, lamports, space), (accounts[3].key, 890_880, 0)),
        other => panic!("unexpected {:?}", other),
    }
    match steps[2] {
        Step::SystemTransfer { from, to, amount } => assert_eq!((from, to, amount), (p.bidder, accounts[3].key, 80)),
        other => panic!("unexpected {:?}", other),
    }
    match steps[3] {
        Step::WriteBid { account, record } => {
            assert_eq!(account, accounts[2].key);
            assert_eq!((record.bidder, record.mint, record.amount), (p.bidder, p.mint, 80));
        }
        other => panic!("unexpected {:?}", other),
    }
    let mut again = bid_accounts(&p);
    again[2].data = bid_bytes(BidEscrowState { bidder: p.bidder, mint: p.mint, amount: 80 });
    assert_eq!(
        Processor::process(&program(), &again, &with_amount(5, 90), &reserves()).unwrap_err(),
        ProcessError::AccountAlreadyInUse
    );
}

#[test]
fn withdraw_bid_returns_everything_to_bidder() {
    let p = parties();
    let mut accounts = bid_accounts(&p);
    accounts[2].lamports = 1_392_000;
    accounts[3].lamports = 890_880 + 80;
    let steps = Processor::process(&program(), &accounts[..5].to_vec(), &[6], &reserves()).unwrap();
    assert_eq!(steps.len(), 3);
    match (steps[0], steps[1], steps[2]) {
        (Step::Debit { amount: a, .. }, Step::Debit { amount: b, .. }, Step::Credit { account, amount }) => {
            assert_eq!((a, b), (1_392_000, 890_960));
            assert_eq!(account, p.bidder);
            assert_eq!(amount, 1_392_000 + 890_960);
        }
        other => panic!("unexpected {:?}", other),
    }
}

#[test]
fn refund_only_by_platform_authority() {
    let p = parties();
    let mut cfg = vec![0u8; 49];
    PlatformState::pack(PlatformState { is_initialized: true, authority: addr(8), platform_fee: 0, nonce: 0 }, &mut cfg).unwrap();
    let accounts = vec![
        view(addr(8), system_program_id(), true, 1, vec![]),
        view(p.mint, token_program_id(), false, 1, vec![]),
        view(p.bidder, system_program_id(), false, 10, vec![]),
        view(derive_platform(&program()).unwrap().0, program(), false, 1, cfg),
        view(escrow(&p.mint, &p.bidder, EscrowKind::Bid, Purpose::State), program(), false, 1_392_000, vec![]),
        view(escrow(&p.mint, &p.bidder, EscrowKind::Bid, Purpose::Vault), program(), false, 890_960, vec![]),
    ];
    let steps = Processor::process(&program(), &accounts, &[9], &reserves()).unwrap();
    match steps[2] {
        Step::Credit { account, amount } => assert_eq!((account, amount), (p.bidder, 2_282_960)),
        other => panic!("unexpected {:?}", other),
    }
    let mut other = accounts;
    other[0].key = addr(7);
    assert_eq!(
        Processor::process(&program(), &other, &[9], &reserves()).unwrap_err(),
        ProcessError::Custom(NFTError::InvalidAuthority)
    );
}

#[test]
fn accept_then_claim_scenario() {
    let p = parties();
    let r = reserves();
    let accounts = accept_accounts(&p, p.seller, open_listing(&p));
    let steps = Processor::process(&program(), &accounts, &[7], &r).unwrap();
    assert_eq!(steps.len(), 5);
    match steps[0] {
        Step::WriteListing { account, record } => {
            assert_eq!(account, accounts[5].key);
            assert_eq!(record.amount, 80);
            assert!(record.success);
            assert_eq!(record.successful_buyer, p.bidder);
            assert_eq!(record.lister, p.seller);
        }
        other => panic!("unexpected {:?}", other),
    }
    match (steps[1], steps[2], steps[3], steps[4]) {
        (
            Step::Debit { account: s, amount: sa },
            Step::Debit { account: v, amount: va },
            Step::Credit { account: seller, amount: price },
            Step::Credit { account: bidder, amount: refund },
        ) => {
            assert_eq!((s, sa), (accounts[3].key, r.bid_state));
            assert_eq!((v, va), (accounts[4].key, r.bid_vault + 80));
            assert_eq!((seller, price), (p.seller, 80));
            assert_eq!((bidder, refund), (p.bidder, r.bid_state + r.bid_vault));
        }
        other => panic!("unexpected {:?}", other),
    }

    let claim = claim_accounts(&p, p.bidder, p.bidder_token, settled_listing(&p));
    let steps = Processor::process(&program(), &claim, &[8], &r).unwrap();
    assert_eq!(steps.len(), 4);
    match steps[0] {
        Step::TokenTransfer { source, destination, authority, signer, .. } => {
            assert_eq!((source, destination, authority), (claim[5].key, p.bidder_token, claim[4].key));
            assert!(signer.is_some());
        }
        other => panic!("unexpected {:?}", other),
    }
    match steps[1] {
        Step::CloseTokenAccount { account, destination, .. } => assert_eq!((account, destination), (claim[5].key, claim[4].key)),
        other => panic!("unexpected {:?}", other),
    }
    match (steps[2], steps[3]) {
        (Step::Debit { account, amount }, Step::Credit { account: to, amount: back }) => {
            assert_eq!((account, amount), (claim[4].key, r.list_state + r.token_account));
            assert_eq!((to, back), (p.seller, r.list_state + r.token_account));
        }
        other => panic!("unexpected {:?}", other),
    }
}

#[test]
fn accept_refused_to_non_seller_and_when_settled() {
    let p = parties();
    let not_seller = accept_accounts(&p, addr(9), ListEscrowState { lister: p.seller, ..open_listing(&p) });
    assert_eq!(Processor::process(&program(), &not_seller, &[7], &reserves()).unwrap_err(), ProcessError::InvalidAccountData);
    let settled = accept_accounts(&p, p.seller, settled_listing(&p));
    assert_eq!(Processor::process(&program(), &settled, &[7], &reserves()).unwrap_err(), ProcessError::InvalidAccountData);
}

#[test]
fn claim_refused_before_settlement_or_to_others() {
    let p = parties();
    let early = claim_accounts(&p, p.bidder, p.bidder_token, open_listing(&p));
    assert_eq!(Processor::process(&program(), &early, &[8], &reserves()).unwrap_err(), ProcessError::InvalidAccountData);
    let stranger = claim_accounts(&p, addr(9), addr(10), settled_listing(&p));
    assert_eq!(Processor::process(&program(), &stranger, &[8], &reserves()).unwrap_err(), ProcessError::InvalidAccountData);
}

fn delist_accounts(p: &Parties, listing: ListEscrowState) -> Vec<AccountView> {
    let r = reserves();
    vec![
        view(p.seller, system_program_id(), true, SELLER_FUNDS, vec![]),
        view(p.seller_token, token_program_id(), false, 2_039_280, token_data(&p.mint, &p.seller)),
        view(p.mint, token_program_id(), false, 1_461_600, vec![0u8; 82]),
        view(escrow(&p.mint, &p.seller, EscrowKind::List, Purpose::State), program(), false, r.list_state, listing_bytes(listing)),
        view(escrow(&p.mint, &p.seller, EscrowKind::List, Purpose::Vault), token_program_id(), false, r.token_account, vec![0u8; 165]),
        empty(program()),
        empty(token_program_id()),
    ]
}

#[test]
fn delist_returns_asset_and_reserves() {
    let p = parties();
    let r = reserves();
    let accounts = delist_accounts(&p, open_listing(&p));
    let steps = Processor::process(&program(), &accounts, &[4], &r).unwrap();
    assert_eq!(steps.len(), 4);
    match steps[0] {
        Step::TokenTransfer { source, destination, authority, .. } => {
            assert_eq!((source, destination, authority), (accounts[4].key, p.seller_token, accounts[3].key));
        }
        other => panic!("unexpected {:?}", other),
    }
    match steps[3] {
        Step::Credit { account, amount } => assert_eq!((account, amount), (p.seller, r.list_state + r.token_account)),
        other => panic!("unexpected {:?}", other),
    }
}

#[test]
fn delist_refused_once_settled() {
    let p = parties();
    let accounts = delist_accounts(&p, settled_listing(&p));
    assert_eq!(Processor::process(&program(), &accounts, &[4], &reserves()).unwrap_err(), ProcessError::InvalidAccountData);
}

#[test]
fn accept_with_underfunded_escrow_fails() {
    let p = parties();
    let mut accounts = accept_accounts(&p, p.seller, open_listing(&p));
    accounts[3].lamports = 10;
    accounts[4].lamports = 20;
    assert_eq!(Processor::process(&program(), &accounts, &[7], &reserves()).unwrap_err(), ProcessError::InsufficientFunds);
}

#[test]
fn initialize_refuses_occupied_record_and_wrong_services() {
    let platform = derive_platform(&program()).unwrap().0;
    let mut data = vec![0u8];
    data.extend_from_slice(&[8u8; 32]);
    data.extend_from_slice(&25u64.to_be_bytes());
    let occupied = vec![
        view(addr(1), system_program_id(), true, SELLER_FUNDS, vec![]),
        view(platform, program(), false, 1_231_200, vec![0u8; 49]),
        empty(program()),
        empty(system_program_id()),
        empty(addr(99)),
    ];
    assert_eq!(process_instruction(&program(), &occupied, &data, &reserves()).unwrap_err(), ProcessError::AccountAlreadyInUse);
    let mut wrong_program = occupied.clone();
    wrong_program[1] = empty(platform);
    wrong_program[2] = empty(addr(201));
    assert_eq!(process_instruction(&program(), &wrong_program, &data, &reserves()).unwrap_err(), ProcessError::InvalidAccountData);
    let mut wrong_system = occupied.clone();
    wrong_system[1] = empty(platform);
    wrong_system[3] = empty(addr(5));
    assert_eq!(process_instruction(&program(), &wrong_system, &data, &reserves()).unwrap_err(), ProcessError::InvalidAccountData);
}

#[test]
fn malformed_request_is_refused_before_any_check() {
    let p = parties();
    assert_eq!(
        process_instruction(&program(), &list_accounts(&p), &[3, 1], &reserves()).unwrap_err(),
        ProcessError::Custom(NFTError::InvalidInstructionData)
    );
}
