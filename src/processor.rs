use vstd::prelude::*;
use crate::address::Address;
use crate::derive::{
    derive_escrow, derive_platform, escrow_seeds, platform_seeds, program_address, signer_seeds_spec,
    EscrowKind, Purpose, Signer,
};
use crate::error::{NFTError, ProcessError};
use crate::instruction::{unpack_spec, InstructionModel, NFTInstruction};
use crate::state::{
    BidEscrowModel, BidEscrowState, ListEscrowModel, ListEscrowState, PlatformModel, PlatformState,
    bid_escrow_decodes, list_escrow_decodes,
    platform_decodes, BIDESCROWSTATE, LISTESCROWSTATE, STATESIZE, platform_initialized,
    platform_authority, platform_fee_of, platform_nonce, list_lister, list_mint, list_settled,
    list_buyer, bid_bidder, bid_amount, lemma_platform_fields, lemma_list_escrow_fields,
    lemma_bid_escrow_fields,
};
use crate::token::{
    system_program_bytes, system_program_id, token_account_decodes, token_mint, token_owner,
    token_program_bytes, token_program_id, TokenHolding, TOKEN_ACCOUNT_LEN,
};

verus! {

/// What an operation sees of one account it is handed.
#[derive(Clone, Debug)]
pub struct AccountView {
    pub key: Address,
    pub owner: Address,
    pub is_signer: bool,
    pub lamports: u64,
    pub data: Vec<u8>,
}

/// The storage reserves that newly created accounts must hold, by kind.
#[derive(Clone, Copy, Debug)]
pub struct Reserves {
    pub platform_state: u64,
    pub list_state: u64,
    pub token_account: u64,
    pub bid_state: u64,
    pub bid_vault: u64,
}

/// One effect of an operation, in the order the host must perform them.
#[derive(Clone, Copy, Debug)]
pub enum Step {
    /// The payer funds a new account with its reserve; the program signs for it.
    CreateAccount { payer: Address, account: Address, lamports: u64, space: u64, owner: Address, signer: Signer },
    /// The asset-transfer service sets up a custody account.
    InitializeTokenAccount { account: Address, mint: Address, owner: Address },
    /// The asset-transfer service moves one asset unit.
    TokenTransfer { source: Address, mint: Address, destination: Address, authority: Address, signer: Option<Signer> },
    /// The asset-transfer service closes a custody account, handing its balance on.
    CloseTokenAccount { account: Address, destination: Address, authority: Address, signer: Signer },
    /// The system service moves currency from a signing party.
    SystemTransfer { from: Address, to: Address, amount: u64 },
    /// The program takes currency out of an account it owns.
    Debit { account: Address, amount: u64 },
    /// The program adds currency to an account.
    Credit { account: Address, amount: u64 },
    /// The platform record is written.
    WritePlatform { account: Address, record: PlatformState },
    /// A listing record is written.
    WriteListing { account: Address, record: ListEscrowState },
    /// A bid record is written.
    WriteBid { account: Address, record: BidEscrowState },
}

pub enum StepModel {
    CreateAccount { payer: Seq<u8>, account: Seq<u8>, lamports: u64, space: u64, owner: Seq<u8>, signer: Seq<Seq<u8>> },
    InitializeTokenAccount { account: Seq<u8>, mint: Seq<u8>, owner: Seq<u8> },
    TokenTransfer { source: Seq<u8>, mint: Seq<u8>, destination: Seq<u8>, authority: Seq<u8>, signer: Option<Seq<Seq<u8>>> },
    CloseTokenAccount { account: Seq<u8>, destination: Seq<u8>, authority: Seq<u8>, signer: Seq<Seq<u8>> },
    SystemTransfer { from: Seq<u8>, to: Seq<u8>, amount: u64 },
    Debit { account: Seq<u8>, amount: u64 },
    Credit { account: Seq<u8>, amount: u64 },
    WritePlatform { account: Seq<u8>, record: PlatformModel },
    WriteListing { account: Seq<u8>, record: ListEscrowModel },
    WriteBid { account: Seq<u8>, record: BidEscrowModel },
}

impl View for Step {
    type V = StepModel;

    open spec fn view(&self) -> StepModel {
        match *self {
            Step::CreateAccount { payer, account, lamports, space, owner, signer } => StepModel::CreateAccount {
                payer: payer.bytes@,
                account: account.bytes@,
                lamports,
                space,
                owner: owner.bytes@,
                signer: signer_seeds_spec(signer),
            },
            Step::InitializeTokenAccount { account, mint, owner } => StepModel::InitializeTokenAccount {
                account: account.bytes@,
                mint: mint.bytes@,
                owner: owner.bytes@,
            },
            Step::TokenTransfer { source, mint, destination, authority, signer } => StepModel::TokenTransfer {
                source: source.bytes@,
                mint: mint.bytes@,
                destination: destination.bytes@,
                authority: authority.bytes@,
                signer: match signer {
                    Some(s) => Some(signer_seeds_spec(s)),
                    None => None,
                },
            },
            Step::CloseTokenAccount { account, destination, authority, signer } => StepModel::CloseTokenAccount {
                account: account.bytes@,
                destination: destination.bytes@,
                authority: authority.bytes@,
                signer: signer_seeds_spec(signer),
            },
            Step::SystemTransfer { from, to, amount } => StepModel::SystemTransfer {
                from: from.bytes@,
                to: to.bytes@,
                amount,
            },
            Step::Debit { account, amount } => StepModel::Debit { account: account.bytes@, amount },
            Step::Credit { account, amount } => StepModel::Credit { account: account.bytes@, amount },
            Step::WritePlatform { account, record } => StepModel::WritePlatform { account: account.bytes@, record: record@ },
            Step::WriteListing { account, record } => StepModel::WriteListing { account: account.bytes@, record: record@ },
            Step::WriteBid { account, record } => StepModel::WriteBid { account: account.bytes@, record: record@ },
        }
    }
}

pub open spec fn steps_view(v: Vec<Step>) -> Seq<StepModel> {
    v@.map_values(|s: Step| s@)
}

/// The operation's outcome: exactly the specified steps, or exactly the
/// specified error.
pub open spec fn outcome_matches(r: Result<Vec<Step>, ProcessError>, m: Result<Seq<StepModel>, ProcessError>) -> bool {
    match m {
        Ok(s) => r matches Ok(v) && steps_view(v) == s,
        Err(e) => r == Err::<Vec<Step>, ProcessError>(e),
    }
}

pub open spec fn fail(e: ProcessError) -> Result<Seq<StepModel>, ProcessError> {
    Err(e)
}

/// An account that holds nothing: neither currency nor data.
pub open spec fn vacant(a: AccountView) -> bool {
    a.lamports == 0 && a.data@.len() == 0
}

/// The bump of the expected derived address, where `key` is that address.
pub open spec fn expect_derived(seeds: Seq<Seq<u8>>, program_id: Address, key: Address) -> Result<u8, ProcessError> {
    match program_address(seeds, program_id.bytes@) {
        None => Err(ProcessError::InvalidSeeds),
        Some((a, b)) => if key.bytes@ == a {
            Ok(b)
        } else {
            Err(ProcessError::InvalidAccountData)
        },
    }
}

pub open spec fn escrow_signer(asset: Address, party: Address, kind: EscrowKind, purpose: Purpose, bump: u8) -> Seq<Seq<u8>> {
    signer_seeds_spec(Signer::Escrow { asset, party, kind, purpose, bump })
}

pub open spec fn opt_bytes(a: Option<Address>) -> Option<Seq<u8>> {
    match a {
        Some(x) => Some(x.bytes@),
        None => None,
    }
}

pub open spec fn zero_bytes() -> Seq<u8> {
    Seq::new(32, |i: int| 0u8)
}

fn check_escrow(
    program_id: &Address,
    asset: &Address,
    party: &Address,
    kind: EscrowKind,
    purpose: Purpose,
    key: &Address,
) -> (r: Result<u8, ProcessError>)
    ensures
        r == expect_derived(escrow_seeds(*asset, *party, kind, purpose), *program_id, *key),
{
    match derive_escrow(program_id, asset, party, kind, purpose) {
        Ok((a, b)) => if key.same(&a) {
            Ok(b)
        } else {
            Err(ProcessError::InvalidAccountData)
        },
        Err(e) => Err(e),
    }
}

fn check_platform(program_id: &Address, key: &Address) -> (r: Result<u8, ProcessError>)
    ensures
        r == expect_derived(platform_seeds(), *program_id, *key),
{
    match derive_platform(program_id) {
        Ok((a, b)) => if key.same(&a) {
            Ok(b)
        } else {
            Err(ProcessError::InvalidAccountData)
        },
        Err(e) => Err(e),
    }
}

fn is_vacant(a: &AccountView) -> (r: bool)
    ensures
        r == vacant(*a),
{
    a.lamports == 0 && a.data.len() == 0
}

// ---------------------------------------------------------------- Initialize

/// Initialize: accounts are [initializer (signs), platform record, program,
/// system service, fee table]. Creates the record at its derived address.
pub open spec fn init_platform_spec(
    acc: Seq<AccountView>,
    authority: Seq<u8>,
    platform_fee: u64,
    program_id: Address,
    res: Reserves,
) -> Result<Seq<StepModel>, ProcessError> {
    if acc.len() < 5 {
        fail(ProcessError::NotEnoughAccountKeys)
    } else if !acc[0].is_signer {
        fail(ProcessError::MissingRequiredSignature)
    } else if acc[2].key.bytes@ != program_id.bytes@ {
        fail(ProcessError::InvalidAccountData)
    } else if acc[3].key.bytes@ != system_program_bytes() {
        fail(ProcessError::InvalidAccountData)
    } else {
        match expect_derived(platform_seeds(), program_id, acc[1].key) {
            Err(e) => fail(e),
            Ok(bump) => if !vacant(acc[1]) {
                fail(ProcessError::AccountAlreadyInUse)
            } else {
                Ok(seq![
                    StepModel::CreateAccount {
                        payer: acc[0].key.bytes@,
                        account: acc[1].key.bytes@,
                        lamports: res.platform_state,
                        space: STATESIZE as u64,
                        owner: program_id.bytes@,
                        signer: signer_seeds_spec(Signer::Platform { bump }),
                    },
                    StepModel::WritePlatform {
                        account: acc[1].key.bytes@,
                        record: PlatformModel {
                            is_initialized: true,
                            authority,
                            platform_fee,
                            nonce: 0,
                        },
                    },
                ])
            },
        }
    }
}

// ------------------------------------------------- ChangeAuthority, ChangeFee

/// The platform record after an authority-gated update, where the caller may
/// make it: `new_authority` replaces the authority where given, `new_fee`
/// the fee where given.
pub open spec fn config_update_spec(
    acc: Seq<AccountView>,
    program_id: Address,
    new_authority: Option<Seq<u8>>,
    new_fee: Option<u64>,
) -> Result<Seq<StepModel>, ProcessError> {
    if acc.len() < 2 {
        fail(ProcessError::NotEnoughAccountKeys)
    } else if !acc[0].is_signer {
        fail(ProcessError::MissingRequiredSignature)
    } else if program_address(platform_seeds(), program_id.bytes@) is None {
        fail(ProcessError::InvalidSeeds)
    } else if !platform_decodes(acc[1].data@) {
        fail(ProcessError::InvalidAccountData)
    } else if acc[1].key.bytes@ != program_address(platform_seeds(), program_id.bytes@)->Some_0.0 {
        fail(ProcessError::InvalidInstructionData)
    } else if !platform_initialized(acc[1].data@) {
        fail(ProcessError::UninitializedAccount)
    } else if platform_authority(acc[1].data@) != acc[0].key.bytes@ {
        fail(ProcessError::Custom(NFTError::InvalidAuthority))
    } else {
        let old = acc[1].data@;
        Ok(seq![
            StepModel::WritePlatform {
                account: acc[1].key.bytes@,
                record: PlatformModel {
                    is_initialized: true,
                    authority: match new_authority {
                        Some(a) => a,
                        None => platform_authority(old),
                    },
                    platform_fee: match new_fee {
                        Some(f) => f,
                        None => platform_fee_of(old),
                    },
                    nonce: platform_nonce(old),
                },
            },
        ])
    }
}

// ------------------------------------------------------------- List, DeList

/// List: accounts are [seller (signs), seller's custody account, asset,
/// listing state, listing vault, program, asset service, system service, fee
/// table]. Opens the escrow and moves one asset unit into its vault.
pub open spec fn list_spec(acc: Seq<AccountView>, amount: u64, program_id: Address, res: Reserves) -> Result<Seq<StepModel>, ProcessError> {
    if acc.len() < 9 {
        fail(ProcessError::NotEnoughAccountKeys)
    } else if !acc[0].is_signer {
        fail(ProcessError::MissingRequiredSignature)
    } else if !token_account_decodes(acc[1].data@) || token_owner(acc[1].data@) != acc[0].key.bytes@ {
        fail(ProcessError::InvalidAccountData)
    } else if acc[2].owner.bytes@ != token_program_bytes() || token_mint(acc[1].data@) != acc[2].key.bytes@ {
        fail(ProcessError::InvalidAccountData)
    } else if acc[5].key.bytes@ != program_id.bytes@ || acc[6].key.bytes@ != token_program_bytes()
        || acc[7].key.bytes@ != system_program_bytes() {
        fail(ProcessError::InvalidAccountData)
    } else {
        let (seller, mint) = (acc[0].key, acc[2].key);
        match expect_derived(escrow_seeds(mint, seller, EscrowKind::List, Purpose::State), program_id, acc[3].key) {
            Err(e) => fail(e),
            Ok(b1) => if !vacant(acc[3]) {
                fail(ProcessError::AccountAlreadyInUse)
            } else {
                match expect_derived(escrow_seeds(mint, seller, EscrowKind::List, Purpose::Vault), program_id, acc[4].key) {
                    Err(e) => fail(e),
                    Ok(b2) => if !vacant(acc[4]) {
                        fail(ProcessError::AccountAlreadyInUse)
                    } else {
                        Ok(seq![
                            StepModel::CreateAccount {
                                payer: seller.bytes@,
                                account: acc[3].key.bytes@,
                                lamports: res.list_state,
                                space: LISTESCROWSTATE as u64,
                                owner: program_id.bytes@,
                                signer: escrow_signer(mint, seller, EscrowKind::List, Purpose::State, b1),
                            },
                            StepModel::CreateAccount {
                                payer: seller.bytes@,
                                account: acc[4].key.bytes@,
                                lamports: res.token_account,
                                space: TOKEN_ACCOUNT_LEN as u64,
                                owner: token_program_bytes(),
                                signer: escrow_signer(mint, seller, EscrowKind::List, Purpose::Vault, b2),
                            },
                            StepModel::InitializeTokenAccount {
                                account: acc[4].key.bytes@,
                                mint: mint.bytes@,
                                owner: acc[3].key.bytes@,
                            },
                            StepModel::TokenTransfer {
                                source: acc[1].key.bytes@,
                                mint: mint.bytes@,
                                destination: acc[4].key.bytes@,
                                authority: seller.bytes@,
                                signer: None,
                            },
                            StepModel::WriteListing {
                                account: acc[3].key.bytes@,
                                record: ListEscrowModel {
                                    lister: seller.bytes@,
                                    mint: mint.bytes@,
                                    amount,
                                    success: false,
                                    successful_buyer: zero_bytes(),
                                },
                            },
                        ])
                    },
                }
            },
        }
    }
}

/// DeList: accounts are [seller (signs), seller's custody account, asset,
/// listing state, listing vault, program, asset service]. Only an unsettled
/// listing; the unit and both reserves go back to the seller.
pub open spec fn delist_spec(acc: Seq<AccountView>, program_id: Address) -> Result<Seq<StepModel>, ProcessError> {
    if acc.len() < 7 {
        fail(ProcessError::NotEnoughAccountKeys)
    } else if !acc[0].is_signer {
        fail(ProcessError::MissingRequiredSignature)
    } else if !token_account_decodes(acc[1].data@) || token_owner(acc[1].data@) != acc[0].key.bytes@ {
        fail(ProcessError::InvalidAccountData)
    } else if acc[2].owner.bytes@ != token_program_bytes() || acc[5].key.bytes@ != program_id.bytes@
        || acc[6].key.bytes@ != token_program_bytes() {
        fail(ProcessError::InvalidAccountData)
    } else {
        let (seller, mint) = (acc[0].key, acc[2].key);
        match expect_derived(escrow_seeds(mint, seller, EscrowKind::List, Purpose::State), program_id, acc[3].key) {
            Err(e) => fail(e),
            Ok(b1) => match expect_derived(escrow_seeds(mint, seller, EscrowKind::List, Purpose::Vault), program_id, acc[4].key) {
                Err(e) => fail(e),
                Ok(_) => if !list_escrow_decodes(acc[3].data@) || list_settled(acc[3].data@) {
                    fail(ProcessError::InvalidAccountData)
                } else if acc[3].lamports + acc[4].lamports + acc[0].lamports > u64::MAX {
                    fail(ProcessError::ArithmeticOverflow)
                } else {
                    let total = (acc[3].lamports + acc[4].lamports) as u64;
                    let signer = escrow_signer(mint, seller, EscrowKind::List, Purpose::State, b1);
                    Ok(seq![
                        StepModel::TokenTransfer {
                            source: acc[4].key.bytes@,
                            mint: mint.bytes@,
                            destination: acc[1].key.bytes@,
                            authority: acc[3].key.bytes@,
                            signer: Some(signer),
                        },
                        StepModel::CloseTokenAccount {
                            account: acc[4].key.bytes@,
                            destination: acc[3].key.bytes@,
                            authority: acc[3].key.bytes@,
                            signer,
                        },
                        StepModel::Debit { account: acc[3].key.bytes@, amount: total },
                        StepModel::Credit { account: seller.bytes@, amount: total },
                    ])
                },
            },
        }
    }
}

// ------------------------------------------------------- Bid, WithdrawBid

/// Bid: accounts are [bidder (signs), asset, bid state, bid vault, program,
/// system service, fee table]. Opens the escrow and deposits the amount.
pub open spec fn bid_spec(acc: Seq<AccountView>, amount: u64, program_id: Address, res: Reserves) -> Result<Seq<StepModel>, ProcessError> {
    if acc.len() < 7 {
        fail(ProcessError::NotEnoughAccountKeys)
    } else if !acc[0].is_signer {
        fail(ProcessError::MissingRequiredSignature)
    } else if acc[1].owner.bytes@ != token_program_bytes() || acc[4].key.bytes@ != program_id.bytes@
        || acc[5].key.bytes@ != system_program_bytes() {
        fail(ProcessError::InvalidAccountData)
    } else {
        let (bidder, mint) = (acc[0].key, acc[1].key);
        match expect_derived(escrow_seeds(mint, bidder, EscrowKind::Bid, Purpose::State), program_id, acc[2].key) {
            Err(e) => fail(e),
            Ok(b1) => if !vacant(acc[2]) {
                fail(ProcessError::AccountAlreadyInUse)
            } else {
                match expect_derived(escrow_seeds(mint, bidder, EscrowKind::Bid, Purpose::Vault), program_id, acc[3].key) {
                    Err(e) => fail(e),
                    Ok(b2) => if !vacant(acc[3]) {
                        fail(ProcessError::AccountAlreadyInUse)
                    } else {
                        Ok(seq![
                            StepModel::CreateAccount {
                                payer: bidder.bytes@,
                                account: acc[2].key.bytes@,
                                lamports: res.bid_state,
                                space: BIDESCROWSTATE as u64,
                                owner: program_id.bytes@,
                                signer: escrow_signer(mint, bidder, EscrowKind::Bid, Purpose::State, b1),
                            },
                            StepModel::CreateAccount {
                                payer: bidder.bytes@,
                                account: acc[3].key.bytes@,
                                lamports: res.bid_vault,
                                space: 0,
                                owner: program_id.bytes@,
                                signer: escrow_signer(mint, bidder, EscrowKind::Bid, Purpose::Vault, b2),
                            },
                            StepModel::SystemTransfer { from: bidder.bytes@, to: acc[3].key.bytes@, amount },
                            StepModel::WriteBid {
                                account: acc[2].key.bytes@,
                                record: BidEscrowModel { bidder: bidder.bytes@, mint: mint.bytes@, amount },
                            },
                        ])
                    },
                }
            },
        }
    }
}

/// Both accounts of a bid escrow are emptied into `to`.
pub open spec fn drain_bid(state: AccountView, vault: AccountView, to: Seq<u8>) -> Seq<StepModel> {
    seq![
        StepModel::Debit { account: state.key.bytes@, amount: state.lamports },
        StepModel::Debit { account: vault.key.bytes@, amount: vault.lamports },
        StepModel::Credit { account: to, amount: (state.lamports + vault.lamports) as u64 },
    ]
}

/// WithdrawBid: accounts are [bidder (signs), asset, bid state, bid vault,
/// program]. Everything the escrow holds goes back to the bidder.
pub open spec fn withdraw_bid_spec(acc: Seq<AccountView>, program_id: Address) -> Result<Seq<StepModel>, ProcessError> {
    if acc.len() < 5 {
        fail(ProcessError::NotEnoughAccountKeys)
    } else if !acc[0].is_signer {
        fail(ProcessError::MissingRequiredSignature)
    } else if acc[1].owner.bytes@ != token_program_bytes() || acc[4].key.bytes@ != program_id.bytes@ {
        fail(ProcessError::InvalidAccountData)
    } else {
        let (bidder, mint) = (acc[0].key, acc[1].key);
        match expect_derived(escrow_seeds(mint, bidder, EscrowKind::Bid, Purpose::State), program_id, acc[2].key) {
            Err(e) => fail(e),
            Ok(_) => match expect_derived(escrow_seeds(mint, bidder, EscrowKind::Bid, Purpose::Vault), program_id, acc[3].key) {
                Err(e) => fail(e),
                Ok(_) => if acc[2].lamports + acc[3].lamports + acc[0].lamports > u64::MAX {
                    fail(ProcessError::ArithmeticOverflow)
                } else {
                    Ok(drain_bid(acc[2], acc[3], bidder.bytes@))
                },
            },
        }
    }
}

// ----------------------------------------------------------------- AcceptBid

/// AcceptBid: accounts are [seller (signs), asset, bidder, bid state, bid
/// vault, listing state, listing vault]. Settles the listing on the bid: the
/// seller receives the bid amount, the bidder the rest of the bid escrow.
pub open spec fn accept_bid_spec(acc: Seq<AccountView>, program_id: Address) -> Result<Seq<StepModel>, ProcessError> {
    if acc.len() < 7 {
        fail(ProcessError::NotEnoughAccountKeys)
    } else if !acc[0].is_signer {
        fail(ProcessError::MissingRequiredSignature)
    } else if acc[1].owner.bytes@ != token_program_bytes() {
        fail(ProcessError::InvalidAccountData)
    } else {
        let (seller, mint, bidder) = (acc[0].key, acc[1].key, acc[2].key);
        match expect_derived(escrow_seeds(mint, bidder, EscrowKind::Bid, Purpose::State), program_id, acc[3].key) {
            Err(e) => fail(e),
            Ok(_) => match expect_derived(escrow_seeds(mint, bidder, EscrowKind::Bid, Purpose::Vault), program_id, acc[4].key) {
                Err(e) => fail(e),
                Ok(_) => match expect_derived(escrow_seeds(mint, seller, EscrowKind::List, Purpose::State), program_id, acc[5].key) {
                    Err(e) => fail(e),
                    Ok(_) => match expect_derived(escrow_seeds(mint, seller, EscrowKind::List, Purpose::Vault), program_id, acc[6].key) {
                        Err(e) => fail(e),
                        Ok(_) => {
                            let (list, bid) = (acc[5].data@, acc[3].data@);
                            let total = acc[3].lamports + acc[4].lamports;
                            if !list_escrow_decodes(list) || list_lister(list) != seller.bytes@ || list_settled(list) {
                                fail(ProcessError::InvalidAccountData)
                            } else if !bid_escrow_decodes(bid) || bid_bidder(bid) != bidder.bytes@ {
                                fail(ProcessError::InvalidAccountData)
                            } else if total > u64::MAX {
                                fail(ProcessError::ArithmeticOverflow)
                            } else if total < bid_amount(bid) {
                                fail(ProcessError::InsufficientFunds)
                            } else if acc[0].lamports + bid_amount(bid) > u64::MAX
                                || acc[2].lamports + (total - bid_amount(bid)) > u64::MAX {
                                fail(ProcessError::ArithmeticOverflow)
                            } else {
                                Ok(seq![
                                    StepModel::WriteListing {
                                        account: acc[5].key.bytes@,
                                        record: ListEscrowModel {
                                            lister: list_lister(list),
                                            mint: list_mint(list),
                                            amount: bid_amount(bid),
                                            success: true,
                                            successful_buyer: bidder.bytes@,
                                        },
                                    },
                                    StepModel::Debit { account: acc[3].key.bytes@, amount: acc[3].lamports },
                                    StepModel::Debit { account: acc[4].key.bytes@, amount: acc[4].lamports },
                                    StepModel::Credit { account: seller.bytes@, amount: bid_amount(bid) },
                                    StepModel::Credit { account: bidder.bytes@, amount: (total - bid_amount(bid)) as u64 },
                                ])
                            }
                        },
                    },
                },
            },
        }
    }
}

// ------------------------------------------------------ ClaimAssetOnSuccess

/// ClaimAssetOnSuccess: accounts are [buyer (signs), buyer's custody account,
/// asset, seller, listing state, listing vault, asset service]. The recorded
/// buyer of a settled listing receives the unit; the seller its reserves.
pub open spec fn claim_spec(acc: Seq<AccountView>, program_id: Address) -> Result<Seq<StepModel>, ProcessError> {
    if acc.len() < 7 {
        fail(ProcessError::NotEnoughAccountKeys)
    } else if !acc[0].is_signer {
        fail(ProcessError::MissingRequiredSignature)
    } else if !token_account_decodes(acc[1].data@) || token_owner(acc[1].data@) != acc[0].key.bytes@ {
        fail(ProcessError::InvalidAccountData)
    } else if acc[2].owner.bytes@ != token_program_bytes() || token_mint(acc[1].data@) != acc[2].key.bytes@ {
        fail(ProcessError::InvalidAccountData)
    } else {
        let (buyer, mint, lister) = (acc[0].key, acc[2].key, acc[3].key);
        match expect_derived(escrow_seeds(mint, lister, EscrowKind::List, Purpose::State), program_id, acc[4].key) {
            Err(e) => fail(e),
            Ok(b1) => match expect_derived(escrow_seeds(mint, lister, EscrowKind::List, Purpose::Vault), program_id, acc[5].key) {
                Err(e) => fail(e),
                Ok(_) => {
                    let list = acc[4].data@;
                    if acc[6].key.bytes@ != token_program_bytes() {
                        fail(ProcessError::InvalidAccountData)
                    } else if !list_escrow_decodes(list) || list_lister(list) != lister.bytes@ {
                        fail(ProcessError::InvalidAccountData)
                    } else if !list_settled(list) || list_buyer(list) != buyer.bytes@ {
                        fail(ProcessError::InvalidAccountData)
                    } else if acc[4].lamports + acc[5].lamports + acc[3].lamports > u64::MAX {
                        fail(ProcessError::ArithmeticOverflow)
                    } else {
                        let total = (acc[4].lamports + acc[5].lamports) as u64;
                        let signer = escrow_signer(mint, lister, EscrowKind::List, Purpose::State, b1);
                        Ok(seq![
                            StepModel::TokenTransfer {
                                source: acc[5].key.bytes@,
                                mint: mint.bytes@,
                                destination: acc[1].key.bytes@,
                                authority: acc[4].key.bytes@,
                                signer: Some(signer),
                            },
                            StepModel::CloseTokenAccount {
                                account: acc[5].key.bytes@,
                                destination: acc[4].key.bytes@,
                                authority: acc[4].key.bytes@,
                                signer,
                            },
                            StepModel::Debit { account: acc[4].key.bytes@, amount: total },
                            StepModel::Credit { account: lister.bytes@, amount: total },
                        ])
                    }
                },
            },
        }
    }
}

// -------------------------------------------------------------- RefundUser

/// RefundUser: accounts are [platform authority (signs), asset, bidder,
/// platform record, bid state, bid vault]. The bid escrow goes back to the bidder.
pub open spec fn refund_spec(acc: Seq<AccountView>, program_id: Address) -> Result<Seq<StepModel>, ProcessError> {
    if acc.len() < 6 {
        fail(ProcessError::NotEnoughAccountKeys)
    } else if !acc[0].is_signer {
        fail(ProcessError::MissingRequiredSignature)
    } else if acc[1].owner.bytes@ != token_program_bytes() {
        fail(ProcessError::InvalidAccountData)
    } else {
        match expect_derived(platform_seeds(), program_id, acc[3].key) {
            Err(e) => fail(e),
            Ok(_) => {
                let cfg = acc[3].data@;
                if !platform_decodes(cfg) {
                    fail(ProcessError::InvalidAccountData)
                } else if !platform_initialized(cfg) {
                    fail(ProcessError::UninitializedAccount)
                } else if platform_authority(cfg) != acc[0].key.bytes@ {
                    fail(ProcessError::Custom(NFTError::InvalidAuthority))
                } else {
                    let (mint, bidder) = (acc[1].key, acc[2].key);
                    match expect_derived(escrow_seeds(mint, bidder, EscrowKind::Bid, Purpose::State), program_id, acc[4].key) {
                        Err(e) => fail(e),
                        Ok(_) => match expect_derived(escrow_seeds(mint, bidder, EscrowKind::Bid, Purpose::Vault), program_id, acc[5].key) {
                            Err(e) => fail(e),
                            Ok(_) => if acc[4].lamports + acc[5].lamports + acc[2].lamports > u64::MAX {
                                fail(ProcessError::ArithmeticOverflow)
                            } else {
                                Ok(drain_bid(acc[4], acc[5], bidder.bytes@))
                            },
                        },
                    }
                }
            },
        }
    }
}

// ---------------------------------------------------------------- dispatch

/// The outcome of a request: decoded, then decided by its operation.
pub open spec fn process_spec(program_id: Address, acc: Seq<AccountView>, data: Seq<u8>, res: Reserves) -> Result<Seq<StepModel>, ProcessError> {
    match unpack_spec(data) {
        Err(e) => fail(e),
        Ok(m) => match m {
            InstructionModel::Initialize { authority, platform_fee } => init_platform_spec(acc, authority, platform_fee, program_id, res),
            InstructionModel::ChangeAuthority { authority } => config_update_spec(acc, program_id, Some(authority), None),
            InstructionModel::ChangeFee { platform_fee } => config_update_spec(acc, program_id, None, Some(platform_fee)),
            InstructionModel::List { amount } => list_spec(acc, amount, program_id, res),
            InstructionModel::DeList => delist_spec(acc, program_id),
            InstructionModel::Bid { amount } => bid_spec(acc, amount, program_id, res),
            InstructionModel::WithdrawBid => withdraw_bid_spec(acc, program_id),
            InstructionModel::AcceptBid => accept_bid_spec(acc, program_id),
            InstructionModel::WithdrawNFTOnSuccess => claim_spec(acc, program_id),
            InstructionModel::RefundUser => refund_spec(acc, program_id),
        },
    }
}

/// Decides each operation of the protocol: checks the accounts it is handed
/// and yields the steps that realize it.
pub struct Processor;

impl Processor {
    /// Decodes a request and decides it: the steps that realize it, in order,
    /// or the first check that it fails.
    pub fn process(program_id: &Address, accounts: &Vec<AccountView>, instruction_data: &[u8], reserves: &Reserves)
        -> (r: Result<Vec<Step>, ProcessError>)
        ensures
            outcome_matches(r, process_spec(*program_id, accounts@, instruction_data@, *reserves)),
    {
        let instruction = match NFTInstruction::unpack(instruction_data) {
            Ok(i) => i,
            Err(e) => return Err(e),
        };
        match instruction {
            NFTInstruction::Initialize(i) => Self::process_init_platform(accounts, i.authority, i.platform_fee, program_id, reserves),
            NFTInstruction::ChangeAuthority(i) => Self::process_config_update(accounts, Some(i.authority), None, program_id),
            NFTInstruction::ChangeFee(i) => Self::process_config_update(accounts, None, Some(i.platform_fee), program_id),
            NFTInstruction::List(i) => Self::process_list(accounts, i.amount, program_id, reserves),
            NFTInstruction::DeList(_) => Self::process_delist(accounts, program_id),
            NFTInstruction::Bid(i) => Self::process_bid(accounts, i.amount, program_id, reserves),
            NFTInstruction::WithdrawBid(_) => Self::process_withdraw_bid(accounts, program_id),
            NFTInstruction::AcceptBid(_) => Self::process_accept_bid(accounts, program_id),
            NFTInstruction::WithdrawNFTOnSuccess(_) => Self::process_withdraw_nft_on_success(accounts, program_id),
            NFTInstruction::RefundUser(_) => Self::process_refund(accounts, program_id),
        }
    }

    fn process_init_platform(
        accounts: &Vec<AccountView>,
        authority: Address,
        platform_fee: u64,
        program_id: &Address,
        reserves: &Reserves,
    ) -> (r: Result<Vec<Step>, ProcessError>)
        ensures
            outcome_matches(r, init_platform_spec(accounts@, authority.bytes@, platform_fee, *program_id, *reserves)),
    {
        if accounts.len() < 5 {
            return Err(ProcessError::NotEnoughAccountKeys);
        }
        let initializer = &accounts[0];
        let state = &accounts[1];
        if !initializer.is_signer {
            return Err(ProcessError::MissingRequiredSignature);
        }
        if !accounts[2].key.same(program_id) {
            return Err(ProcessError::InvalidAccountData);
        }
        if !accounts[3].key.same(&system_program_id()) {
            return Err(ProcessError::InvalidAccountData);
        }
        let bump = match check_platform(program_id, &state.key) {
            Ok(b) => b,
            Err(e) => return Err(e),
        };
        if !is_vacant(state) {
            return Err(ProcessError::AccountAlreadyInUse);
        }
        let mut v: Vec<Step> = Vec::new();
        v.push(Step::CreateAccount {
            payer: initializer.key,
            account: state.key,
            lamports: reserves.platform_state,
            space: STATESIZE as u64,
            owner: *program_id,
            signer: Signer::Platform { bump },
        });
        v.push(Step::WritePlatform {
            account: state.key,
            record: PlatformState { is_initialized: true, authority, platform_fee, nonce: 0 },
        });
        assert(steps_view(v) =~= init_platform_spec(accounts@, authority.bytes@, platform_fee, *program_id, *reserves)->Ok_0);
        Ok(v)
    }

    fn process_config_update(
        accounts: &Vec<AccountView>,
        new_authority: Option<Address>,
        new_fee: Option<u64>,
        program_id: &Address,
    ) -> (r: Result<Vec<Step>, ProcessError>)
        ensures
            outcome_matches(r, config_update_spec(accounts@, *program_id, opt_bytes(new_authority), new_fee)),
    {
        if accounts.len() < 2 {
            return Err(ProcessError::NotEnoughAccountKeys);
        }
        let signer = &accounts[0];
        let state = &accounts[1];
        if !signer.is_signer {
            return Err(ProcessError::MissingRequiredSignature);
        }
        let (expected, _) = match derive_platform(program_id) {
            Ok(p) => p,
            Err(e) => return Err(e),
        };
        let mut record = match PlatformState::unpack_from_slice(state.data.as_slice()) {
            Ok(x) => x,
            Err(e) => return Err(e),
        };
        proof {
            lemma_platform_fields(record, state.data@);
        }
        if !state.key.same(&expected) {
            return Err(ProcessError::InvalidInstructionData);
        }
        if !record.is_initialized() {
            return Err(ProcessError::UninitializedAccount);
        }
        if !record.authority.same(&signer.key) {
            return Err(ProcessError::Custom(NFTError::InvalidAuthority));
        }
        match new_authority {
            Some(a) => {
                record.authority = a;
            },
            None => {},
        }
        match new_fee {
            Some(f) => {
                record.platform_fee = f;
            },
            None => {},
        }
        let mut v: Vec<Step> = Vec::new();
        v.push(Step::WritePlatform { account: state.key, record });
        assert(steps_view(v) =~= config_update_spec(accounts@, *program_id, opt_bytes(new_authority), new_fee)->Ok_0);
        Ok(v)
    }

    fn process_list(accounts: &Vec<AccountView>, amount: u64, program_id: &Address, reserves: &Reserves)
        -> (r: Result<Vec<Step>, ProcessError>)
        ensures
            outcome_matches(r, list_spec(accounts@, amount, *program_id, *reserves)),
    {
        if accounts.len() < 9 {
            return Err(ProcessError::NotEnoughAccountKeys);
        }
        let seller = &accounts[0];
        let holding = &accounts[1];
        let mint = &accounts[2];
        let state = &accounts[3];
        let vault = &accounts[4];
        if !seller.is_signer {
            return Err(ProcessError::MissingRequiredSignature);
        }
        let token = match TokenHolding::unpack(holding.data.as_slice()) {
            Ok(t) => t,
            Err(e) => return Err(e),
        };
        if !token.owner.same(&seller.key) {
            return Err(ProcessError::InvalidAccountData);
        }
        let token_id = token_program_id();
        if !mint.owner.same(&token_id) || !token.mint.same(&mint.key) {
            return Err(ProcessError::InvalidAccountData);
        }
        if !accounts[5].key.same(program_id) || !accounts[6].key.same(&token_id)
            || !accounts[7].key.same(&system_program_id()) {
            return Err(ProcessError::InvalidAccountData);
        }
        let b1 = match check_escrow(program_id, &mint.key, &seller.key, EscrowKind::List, Purpose::State, &state.key) {
            Ok(b) => b,
            Err(e) => return Err(e),
        };
        if !is_vacant(state) {
            return Err(ProcessError::AccountAlreadyInUse);
        }
        let b2 = match check_escrow(program_id, &mint.key, &seller.key, EscrowKind::List, Purpose::Vault, &vault.key) {
            Ok(b) => b,
            Err(e) => return Err(e),
        };
        if !is_vacant(vault) {
            return Err(ProcessError::AccountAlreadyInUse);
        }
        let mut v: Vec<Step> = Vec::new();
        v.push(Step::CreateAccount {
            payer: seller.key,
            account: state.key,
            lamports: reserves.list_state,
            space: LISTESCROWSTATE as u64,
            owner: *program_id,
            signer: Signer::Escrow { asset: mint.key, party: seller.key, kind: EscrowKind::List, purpose: Purpose::State, bump: b1 },
        });
        v.push(Step::CreateAccount {
            payer: seller.key,
            account: vault.key,
            lamports: reserves.token_account,
            space: TOKEN_ACCOUNT_LEN as u64,
            owner: token_id,
            signer: Signer::Escrow { asset: mint.key, party: seller.key, kind: EscrowKind::List, purpose: Purpose::Vault, bump: b2 },
        });
        v.push(Step::InitializeTokenAccount { account: vault.key, mint: mint.key, owner: state.key });
        v.push(Step::TokenTransfer {
            source: holding.key,
            mint: mint.key,
            destination: vault.key,
            authority: seller.key,
            signer: None,
        });
        let zero = Address::zero();
        v.push(Step::WriteListing {
            account: state.key,
            record: ListEscrowState { lister: seller.key, mint: mint.key, amount, success: false, successful_buyer: zero },
        });
        assert(steps_view(v) =~= list_spec(accounts@, amount, *program_id, *reserves)->Ok_0);
        Ok(v)
    }

    fn process_delist(accounts: &Vec<AccountView>, program_id: &Address) -> (r: Result<Vec<Step>, ProcessError>)
        ensures
            outcome_matches(r, delist_spec(accounts@, *program_id)),
    {
        if accounts.len() < 7 {
            return Err(ProcessError::NotEnoughAccountKeys);
        }
        let seller = &accounts[0];
        let holding = &accounts[1];
        let mint = &accounts[2];
        let state = &accounts[3];
        let vault = &accounts[4];
        if !seller.is_signer {
            return Err(ProcessError::MissingRequiredSignature);
        }
        let token = match TokenHolding::unpack(holding.data.as_slice()) {
            Ok(t) => t,
            Err(e) => return Err(e),
        };
        if !token.owner.same(&seller.key) {
            return Err(ProcessError::InvalidAccountData);
        }
        let token_id = token_program_id();
        if !mint.owner.same(&token_id) || !accounts[5].key.same(program_id) || !accounts[6].key.same(&token_id) {
            return Err(ProcessError::InvalidAccountData);
        }
        let b1 = match check_escrow(program_id, &mint.key, &seller.key, EscrowKind::List, Purpose::State, &state.key) {
            Ok(b) => b,
            Err(e) => return Err(e),
        };
        match check_escrow(program_id, &mint.key, &seller.key, EscrowKind::List, Purpose::Vault, &vault.key) {
            Ok(_) => {},
            Err(e) => return Err(e),
        }
        let listing = match ListEscrowState::unpack_from_slice(state.data.as_slice()) {
            Ok(x) => x,
            Err(e) => return Err(e),
        };
        proof {
            lemma_list_escrow_fields(listing, state.data@);
        }
        if listing.success {
            return Err(ProcessError::InvalidAccountData);
        }
        if state.lamports > u64::MAX - vault.lamports || state.lamports + vault.lamports > u64::MAX - seller.lamports {
            return Err(ProcessError::ArithmeticOverflow);
        }
        let total = state.lamports + vault.lamports;
        let signer = Signer::Escrow { asset: mint.key, party: seller.key, kind: EscrowKind::List, purpose: Purpose::State, bump: b1 };
        let mut v: Vec<Step> = Vec::new();
        v.push(Step::TokenTransfer {
            source: vault.key,
            mint: mint.key,
            destination: holding.key,
            authority: state.key,
            signer: Some(signer),
        });
        v.push(Step::CloseTokenAccount { account: vault.key, destination: state.key, authority: state.key, signer });
        v.push(Step::Debit { account: state.key, amount: total });
        v.push(Step::Credit { account: seller.key, amount: total });
        assert(steps_view(v) =~= delist_spec(accounts@, *program_id)->Ok_0);
        Ok(v)
    }

    fn process_bid(accounts: &Vec<AccountView>, amount: u64, program_id: &Address, reserves: &Reserves)
        -> (r: Result<Vec<Step>, ProcessError>)
        ensures
            outcome_matches(r, bid_spec(accounts@, amount, *program_id, *reserves)),
    {
        if accounts.len() < 7 {
            return Err(ProcessError::NotEnoughAccountKeys);
        }
        let bidder = &accounts[0];
        let mint = &accounts[1];
        let state = &accounts[2];
        let vault = &accounts[3];
        if !bidder.is_signer {
            return Err(ProcessError::MissingRequiredSignature);
        }
        if !mint.owner.same(&token_program_id()) || !accounts[4].key.same(program_id)
            || !accounts[5].key.same(&system_program_id()) {
            return Err(ProcessError::InvalidAccountData);
        }
        let b1 = match check_escrow(program_id, &mint.key, &bidder.key, EscrowKind::Bid, Purpose::State, &state.key) {
            Ok(b) => b,
            Err(e) => return Err(e),
        };
        if !is_vacant(state) {
            return Err(ProcessError::AccountAlreadyInUse);
        }
        let b2 = match check_escrow(program_id, &mint.key, &bidder.key, EscrowKind::Bid, Purpose::Vault, &vault.key) {
            Ok(b) => b,
            Err(e) => return Err(e),
        };
        if !is_vacant(vault) {
            return Err(ProcessError::AccountAlreadyInUse);
        }
        let mut v: Vec<Step> = Vec::new();
        v.push(Step::CreateAccount {
            payer: bidder.key,
            account: state.key,
            lamports: reserves.bid_state,
            space: BIDESCROWSTATE as u64,
            owner: *program_id,
            signer: Signer::Escrow { asset: mint.key, party: bidder.key, kind: EscrowKind::Bid, purpose: Purpose::State, bump: b1 },
        });
        v.push(Step::CreateAccount {
            payer: bidder.key,
            account: vault.key,
            lamports: reserves.bid_vault,
            space: 0,
            owner: *program_id,
            signer: Signer::Escrow { asset: mint.key, party: bidder.key, kind: EscrowKind::Bid, purpose: Purpose::Vault, bump: b2 },
        });
        v.push(Step::SystemTransfer { from: bidder.key, to: vault.key, amount });
        v.push(Step::WriteBid {
            account: state.key,
            record: BidEscrowState { bidder: bidder.key, mint: mint.key, amount },
        });
        assert(steps_view(v) =~= bid_spec(accounts@, amount, *program_id, *reserves)->Ok_0);
        Ok(v)
    }

    /// Empties both accounts of a bid escrow into `to`.
    fn drain_bid_steps(state: &AccountView, vault: &AccountView, to: &Address) -> (r: Vec<Step>)
        requires
            state.lamports + vault.lamports <= u64::MAX,
        ensures
            steps_view(r) == drain_bid(*state, *vault, to.bytes@),
    {
        let mut v: Vec<Step> = Vec::new();
        v.push(Step::Debit { account: state.key, amount: state.lamports });
        v.push(Step::Debit { account: vault.key, amount: vault.lamports });
        v.push(Step::Credit { account: *to, amount: state.lamports + vault.lamports });
        assert(steps_view(v) =~= drain_bid(*state, *vault, to.bytes@));
        v
    }

    fn process_withdraw_bid(accounts: &Vec<AccountView>, program_id: &Address) -> (r: Result<Vec<Step>, ProcessError>)
        ensures
            outcome_matches(r, withdraw_bid_spec(accounts@, *program_id)),
    {
        if accounts.len() < 5 {
            return Err(ProcessError::NotEnoughAccountKeys);
        }
        let bidder = &accounts[0];
        let mint = &accounts[1];
        let state = &accounts[2];
        let vault = &accounts[3];
        if !bidder.is_signer {
            return Err(ProcessError::MissingRequiredSignature);
        }
        if !mint.owner.same(&token_program_id()) || !accounts[4].key.same(program_id) {
            return Err(ProcessError::InvalidAccountData);
        }
        match check_escrow(program_id, &mint.key, &bidder.key, EscrowKind::Bid, Purpose::State, &state.key) {
            Ok(_) => {},
            Err(e) => return Err(e),
        }
        match check_escrow(program_id, &mint.key, &bidder.key, EscrowKind::Bid, Purpose::Vault, &vault.key) {
            Ok(_) => {},
            Err(e) => return Err(e),
        }
        if state.lamports > u64::MAX - vault.lamports || state.lamports + vault.lamports > u64::MAX - bidder.lamports {
            return Err(ProcessError::ArithmeticOverflow);
        }
        Ok(Self::drain_bid_steps(state, vault, &bidder.key))
    }

    fn process_accept_bid(accounts: &Vec<AccountView>, program_id: &Address) -> (r: Result<Vec<Step>, ProcessError>)
        ensures
            outcome_matches(r, accept_bid_spec(accounts@, *program_id)),
    {
        if accounts.len() < 7 {
            return Err(ProcessError::NotEnoughAccountKeys);
        }
        let seller = &accounts[0];
        let mint = &accounts[1];
        let bidder = &accounts[2];
        let bid_state = &accounts[3];
        let bid_vault = &accounts[4];
        let list_state = &accounts[5];
        if !seller.is_signer {
            return Err(ProcessError::MissingRequiredSignature);
        }
        if !mint.owner.same(&token_program_id()) {
            return Err(ProcessError::InvalidAccountData);
        }
        match check_escrow(program_id, &mint.key, &bidder.key, EscrowKind::Bid, Purpose::State, &bid_state.key) {
            Ok(_) => {},
            Err(e) => return Err(e),
        }
        match check_escrow(program_id, &mint.key, &bidder.key, EscrowKind::Bid, Purpose::Vault, &bid_vault.key) {
            Ok(_) => {},
            Err(e) => return Err(e),
        }
        match check_escrow(program_id, &mint.key, &seller.key, EscrowKind::List, Purpose::State, &list_state.key) {
            Ok(_) => {},
            Err(e) => return Err(e),
        }
        match check_escrow(program_id, &mint.key, &seller.key, EscrowKind::List, Purpose::Vault, &accounts[6].key) {
            Ok(_) => {},
            Err(e) => return Err(e),
        }
        let listing = match ListEscrowState::unpack_from_slice(list_state.data.as_slice()) {
            Ok(x) => x,
            Err(e) => return Err(e),
        };
        proof {
            lemma_list_escrow_fields(listing, list_state.data@);
        }
        if !listing.lister.same(&seller.key) || listing.success {
            return Err(ProcessError::InvalidAccountData);
        }
        let bid = match BidEscrowState::unpack_from_slice(bid_state.data.as_slice()) {
            Ok(x) => x,
            Err(e) => return Err(e),
        };
        proof {
            lemma_bid_escrow_fields(bid, bid_state.data@);
        }
        if !bid.bidder.same(&bidder.key) {
            return Err(ProcessError::InvalidAccountData);
        }
        if bid_state.lamports > u64::MAX - bid_vault.lamports {
            return Err(ProcessError::ArithmeticOverflow);
        }
        let total = bid_state.lamports + bid_vault.lamports;
        if total < bid.amount {
            return Err(ProcessError::InsufficientFunds);
        }
        let refund = total - bid.amount;
        if seller.lamports > u64::MAX - bid.amount || bidder.lamports > u64::MAX - refund {
            return Err(ProcessError::ArithmeticOverflow);
        }
        let mut v: Vec<Step> = Vec::new();
        v.push(Step::WriteListing {
            account: list_state.key,
            record: ListEscrowState {
                lister: listing.lister,
                mint: listing.mint,
                amount: bid.amount,
                success: true,
                successful_buyer: bidder.key,
            },
        });
        v.push(Step::Debit { account: bid_state.key, amount: bid_state.lamports });
        v.push(Step::Debit { account: bid_vault.key, amount: bid_vault.lamports });
        v.push(Step::Credit { account: seller.key, amount: bid.amount });
        v.push(Step::Credit { account: bidder.key, amount: refund });
        assert(steps_view(v) =~= accept_bid_spec(accounts@, *program_id)->Ok_0);
        Ok(v)
    }

    fn process_withdraw_nft_on_success(accounts: &Vec<AccountView>, program_id: &Address)
        -> (r: Result<Vec<Step>, ProcessError>)
        ensures
            outcome_matches(r, claim_spec(accounts@, *program_id)),
    {
        if accounts.len() < 7 {
            return Err(ProcessError::NotEnoughAccountKeys);
        }
        let buyer = &accounts[0];
        let holding = &accounts[1];
        let mint = &accounts[2];
        let lister = &accounts[3];
        let state = &accounts[4];
        let vault = &accounts[5];
        if !buyer.is_signer {
            return Err(ProcessError::MissingRequiredSignature);
        }
        let token = match TokenHolding::unpack(holding.data.as_slice()) {
            Ok(t) => t,
            Err(e) => return Err(e),
        };
        if !token.owner.same(&buyer.key) {
            return Err(ProcessError::InvalidAccountData);
        }
        let token_id = token_program_id();
        if !mint.owner.same(&token_id) || !token.mint.same(&mint.key) {
            return Err(ProcessError::InvalidAccountData);
        }
        let b1 = match check_escrow(program_id, &mint.key, &lister.key, EscrowKind::List, Purpose::State, &state.key) {
            Ok(b) => b,
            Err(e) => return Err(e),
        };
        match check_escrow(program_id, &mint.key, &lister.key, EscrowKind::List, Purpose::Vault, &vault.key) {
            Ok(_) => {},
            Err(e) => return Err(e),
        }
        if !accounts[6].key.same(&token_id) {
            return Err(ProcessError::InvalidAccountData);
        }
        let listing = match ListEscrowState::unpack_from_slice(state.data.as_slice()) {
            Ok(x) => x,
            Err(e) => return Err(e),
        };
        proof {
            lemma_list_escrow_fields(listing, state.data@);
        }
        if !listing.lister.same(&lister.key) {
            return Err(ProcessError::InvalidAccountData);
        }
        if !listing.success || !listing.successful_buyer.same(&buyer.key) {
            return Err(ProcessError::InvalidAccountData);
        }
        if state.lamports > u64::MAX - vault.lamports || state.lamports + vault.lamports > u64::MAX - lister.lamports {
            return Err(ProcessError::ArithmeticOverflow);
        }
        let total = state.lamports + vault.lamports;
        let signer = Signer::Escrow { asset: mint.key, party: lister.key, kind: EscrowKind::List, purpose: Purpose::State, bump: b1 };
        let mut v: Vec<Step> = Vec::new();
        v.push(Step::TokenTransfer {
            source: vault.key,
            mint: mint.key,
            destination: holding.key,
            authority: state.key,
            signer: Some(signer),
        });
        v.push(Step::CloseTokenAccount { account: vault.key, destination: state.key, authority: state.key, signer });
        v.push(Step::Debit { account: state.key, amount: total });
        v.push(Step::Credit { account: lister.key, amount: total });
        assert(steps_view(v) =~= claim_spec(accounts@, *program_id)->Ok_0);
        Ok(v)
    }

    fn process_refund(accounts: &Vec<AccountView>, program_id: &Address) -> (r: Result<Vec<Step>, ProcessError>)
        ensures
            outcome_matches(r, refund_spec(accounts@, *program_id)),
    {
        if accounts.len() < 6 {
            return Err(ProcessError::NotEnoughAccountKeys);
        }
        let authority = &accounts[0];
        let mint = &accounts[1];
        let bidder = &accounts[2];
        let config = &accounts[3];
        let state = &accounts[4];
        let vault = &accounts[5];
        if !authority.is_signer {
            return Err(ProcessError::MissingRequiredSignature);
        }
        if !mint.owner.same(&token_program_id()) {
            return Err(ProcessError::InvalidAccountData);
        }
        match check_platform(program_id, &config.key) {
            Ok(_) => {},
            Err(e) => return Err(e),
        }
        let platform = match PlatformState::unpack_from_slice(config.data.as_slice()) {
            Ok(x) => x,
            Err(e) => return Err(e),
        };
        proof {
            lemma_platform_fields(platform, config.data@);
        }
        if !platform.is_initialized() {
            return Err(ProcessError::UninitializedAccount);
        }
        if !platform.authority.same(&authority.key) {
            return Err(ProcessError::Custom(NFTError::InvalidAuthority));
        }
        match check_escrow(program_id, &mint.key, &bidder.key, EscrowKind::Bid, Purpose::State, &state.key) {
            Ok(_) => {},
            Err(e) => return Err(e),
        }
        match check_escrow(program_id, &mint.key, &bidder.key, EscrowKind::Bid, Purpose::Vault, &vault.key) {
            Ok(_) => {},
            Err(e) => return Err(e),
        }
        if state.lamports > u64::MAX - vault.lamports || state.lamports + vault.lamports > u64::MAX - bidder.lamports {
            return Err(ProcessError::ArithmeticOverflow);
        }
        Ok(Self::drain_bid_steps(state, vault, &bidder.key))
    }
}

} // verus!
