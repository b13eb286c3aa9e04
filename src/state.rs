use vstd::prelude::*;
use crate::address::Address;
use crate::bytes::{be_bytes, be_value, lemma_be_bytes_of_value, lemma_be_value_of_bytes, push_address, push_u64_be, read_address, read_u64_be};
use crate::error::ProcessError;

verus! {

/// Encoded size of the platform record.
pub const STATESIZE: usize = 49;
/// Encoded size of a listing escrow record.
pub const LISTESCROWSTATE: usize = 105;
/// Encoded size of a bid escrow record.
pub const BIDESCROWSTATE: usize = 72;

/// The byte that encodes a flag.
pub open spec fn bool_byte(b: bool) -> u8 {
    if b { 1u8 } else { 0u8 }
}

/// Whether a byte is one of the two that encode a flag.
pub open spec fn is_bool_byte(x: u8) -> bool {
    x == 0 || x == 1
}

/// The platform's configuration, stored once at its derived address.
#[derive(Clone, Copy, Debug)]
pub struct PlatformState {
    pub is_initialized: bool,
    pub authority: Address,
    pub platform_fee: u64,
    pub nonce: u64,
}

pub struct PlatformModel {
    pub is_initialized: bool,
    pub authority: Seq<u8>,
    pub platform_fee: u64,
    pub nonce: u64,
}

impl View for PlatformState {
    type V = PlatformModel;

    open spec fn view(&self) -> PlatformModel {
        PlatformModel {
            is_initialized: self.is_initialized,
            authority: self.authority.bytes@,
            platform_fee: self.platform_fee,
            nonce: self.nonce,
        }
    }
}

/// An escrow for one listed asset unit, keyed by (asset, seller).
#[derive(Clone, Copy, Debug)]
pub struct ListEscrowState {
    pub lister: Address,
    pub mint: Address,
    pub amount: u64,
    pub success: bool,
    pub successful_buyer: Address,
}

pub struct ListEscrowModel {
    pub lister: Seq<u8>,
    pub mint: Seq<u8>,
    pub amount: u64,
    pub success: bool,
    pub successful_buyer: Seq<u8>,
}

impl View for ListEscrowState {
    type V = ListEscrowModel;

    open spec fn view(&self) -> ListEscrowModel {
        ListEscrowModel {
            lister: self.lister.bytes@,
            mint: self.mint.bytes@,
            amount: self.amount,
            success: self.success,
            successful_buyer: self.successful_buyer.bytes@,
        }
    }
}

/// An escrow for one deposited bid, keyed by (asset, bidder).
#[derive(Clone, Copy, Debug)]
pub struct BidEscrowState {
    pub bidder: Address,
    pub mint: Address,
    pub amount: u64,
}

pub struct BidEscrowModel {
    pub bidder: Seq<u8>,
    pub mint: Seq<u8>,
    pub amount: u64,
}

impl View for BidEscrowState {
    type V = BidEscrowModel;

    open spec fn view(&self) -> BidEscrowModel {
        BidEscrowModel { bidder: self.bidder.bytes@, mint: self.mint.bytes@, amount: self.amount }
    }
}

/// flag (1) | authority (32) | fee (8, big-endian) | nonce (8, big-endian)
pub open spec fn platform_bytes(m: PlatformModel) -> Seq<u8> {
    seq![bool_byte(m.is_initialized)] + m.authority + be_bytes(m.platform_fee) + be_bytes(m.nonce)
}

/// lister (32) | mint (32) | amount (8) | flag (1) | buyer (32)
pub open spec fn list_escrow_bytes(m: ListEscrowModel) -> Seq<u8> {
    m.lister + m.mint + be_bytes(m.amount) + seq![bool_byte(m.success)] + m.successful_buyer
}

/// bidder (32) | mint (32) | amount (8)
pub open spec fn bid_escrow_bytes(m: BidEscrowModel) -> Seq<u8> {
    m.bidder + m.mint + be_bytes(m.amount)
}

pub open spec fn platform_decodes(s: Seq<u8>) -> bool {
    s.len() == STATESIZE && is_bool_byte(s[0])
}

pub open spec fn list_escrow_decodes(s: Seq<u8>) -> bool {
    s.len() == LISTESCROWSTATE && is_bool_byte(s[72])
}

pub open spec fn bid_escrow_decodes(s: Seq<u8>) -> bool {
    s.len() == BIDESCROWSTATE
}

impl PlatformState {
    pub fn is_initialized(&self) -> (r: bool)
        ensures
            r == self.is_initialized,
    {
        self.is_initialized
    }

    /// Decodes the platform record; the buffer must be exactly its size and
    /// the flag byte 0 or 1.
    pub fn unpack_from_slice(src: &[u8]) -> (r: Result<PlatformState, ProcessError>)
        ensures
            r is Ok <==> platform_decodes(src@),
            r matches Ok(x) ==> platform_bytes(x@) == src@,
            r is Err ==> r == Err::<PlatformState, ProcessError>(ProcessError::InvalidAccountData),
    {
        if src.len() != STATESIZE {
            return Err(ProcessError::InvalidAccountData);
        }
        let is_initialized = if src[0] == 0 {
            false
        } else if src[0] == 1 {
            true
        } else {
            return Err(ProcessError::InvalidAccountData);
        };
        let authority = read_address(src, 1);
        let platform_fee = read_u64_be(src, 33);
        let nonce = read_u64_be(src, 41);
        let r = PlatformState { is_initialized, authority, platform_fee, nonce };
        proof {
            lemma_be_bytes_of_value(src@.subrange(33, 41));
            lemma_be_bytes_of_value(src@.subrange(41, 49));
            assert(platform_bytes(r@) =~= src@);
        }
        Ok(r)
    }

    /// Encodes the record into a buffer of exactly its size.
    pub fn pack_into_slice(&self, dst: &mut Vec<u8>)
        requires
            old(dst)@.len() == STATESIZE,
        ensures
            final(dst)@ == platform_bytes(self@),
    {
        let mut v: Vec<u8> = Vec::new();
        v.push(if self.is_initialized { 1u8 } else { 0u8 });
        push_address(&mut v, &self.authority);
        push_u64_be(&mut v, self.platform_fee);
        push_u64_be(&mut v, self.nonce);
        assert(v@ =~= platform_bytes(self@));
        *dst = v;
    }

    /// Encodes the record, refusing a buffer of another size.
    pub fn pack(src: PlatformState, dst: &mut Vec<u8>) -> (r: Result<(), ProcessError>)
        ensures
            old(dst)@.len() == STATESIZE ==> r is Ok && final(dst)@ == platform_bytes(src@),
            old(dst)@.len() != STATESIZE ==> r == Err::<(), ProcessError>(ProcessError::InvalidAccountData)
                && final(dst)@ == old(dst)@,
    {
        if dst.len() != STATESIZE {
            return Err(ProcessError::InvalidAccountData);
        }
        src.pack_into_slice(dst);
        Ok(())
    }
}

impl ListEscrowState {
    /// Decodes a listing record; the buffer must be exactly its size and the
    /// flag byte 0 or 1.
    pub fn unpack_from_slice(src: &[u8]) -> (r: Result<ListEscrowState, ProcessError>)
        ensures
            r is Ok <==> list_escrow_decodes(src@),
            r matches Ok(x) ==> list_escrow_bytes(x@) == src@,
            r is Err ==> r == Err::<ListEscrowState, ProcessError>(ProcessError::InvalidAccountData),
    {
        if src.len() != LISTESCROWSTATE {
            return Err(ProcessError::InvalidAccountData);
        }
        let success = if src[72] == 0 {
            false
        } else if src[72] == 1 {
            true
        } else {
            return Err(ProcessError::InvalidAccountData);
        };
        let lister = read_address(src, 0);
        let mint = read_address(src, 32);
        let amount = read_u64_be(src, 64);
        let successful_buyer = read_address(src, 73);
        let r = ListEscrowState { lister, mint, amount, success, successful_buyer };
        proof {
            lemma_be_bytes_of_value(src@.subrange(64, 72));
            assert(list_escrow_bytes(r@) =~= src@);
        }
        Ok(r)
    }

    /// Encodes the record into a buffer of exactly its size.
    pub fn pack_into_slice(&self, dst: &mut Vec<u8>)
        requires
            old(dst)@.len() == LISTESCROWSTATE,
        ensures
            final(dst)@ == list_escrow_bytes(self@),
    {
        let mut v: Vec<u8> = Vec::new();
        push_address(&mut v, &self.lister);
        push_address(&mut v, &self.mint);
        push_u64_be(&mut v, self.amount);
        v.push(if self.success { 1u8 } else { 0u8 });
        push_address(&mut v, &self.successful_buyer);
        assert(v@ =~= list_escrow_bytes(self@));
        *dst = v;
    }

    /// Encodes the record, refusing a buffer of another size.
    pub fn pack(src: ListEscrowState, dst: &mut Vec<u8>) -> (r: Result<(), ProcessError>)
        ensures
            old(dst)@.len() == LISTESCROWSTATE ==> r is Ok && final(dst)@ == list_escrow_bytes(src@),
            old(dst)@.len() != LISTESCROWSTATE ==> r == Err::<(), ProcessError>(ProcessError::InvalidAccountData)
                && final(dst)@ == old(dst)@,
    {
        if dst.len() != LISTESCROWSTATE {
            return Err(ProcessError::InvalidAccountData);
        }
        src.pack_into_slice(dst);
        Ok(())
    }
}

impl BidEscrowState {
    /// Decodes a bid record; the buffer must be exactly its size.
    pub fn unpack_from_slice(src: &[u8]) -> (r: Result<BidEscrowState, ProcessError>)
        ensures
            r is Ok <==> bid_escrow_decodes(src@),
            r matches Ok(x) ==> bid_escrow_bytes(x@) == src@,
            r is Err ==> r == Err::<BidEscrowState, ProcessError>(ProcessError::InvalidAccountData),
    {
        if src.len() != BIDESCROWSTATE {
            return Err(ProcessError::InvalidAccountData);
        }
        let bidder = read_address(src, 0);
        let mint = read_address(src, 32);
        let amount = read_u64_be(src, 64);
        let r = BidEscrowState { bidder, mint, amount };
        proof {
            lemma_be_bytes_of_value(src@.subrange(64, 72));
            assert(bid_escrow_bytes(r@) =~= src@);
        }
        Ok(r)
    }

    /// Encodes the record into a buffer of exactly its size.
    pub fn pack_into_slice(&self, dst: &mut Vec<u8>)
        requires
            old(dst)@.len() == BIDESCROWSTATE,
        ensures
            final(dst)@ == bid_escrow_bytes(self@),
    {
        let mut v: Vec<u8> = Vec::new();
        push_address(&mut v, &self.bidder);
        push_address(&mut v, &self.mint);
        push_u64_be(&mut v, self.amount);
        assert(v@ =~= bid_escrow_bytes(self@));
        *dst = v;
    }

    /// Encodes the record, refusing a buffer of another size.
    pub fn pack(src: BidEscrowState, dst: &mut Vec<u8>) -> (r: Result<(), ProcessError>)
        ensures
            old(dst)@.len() == BIDESCROWSTATE ==> r is Ok && final(dst)@ == bid_escrow_bytes(src@),
            old(dst)@.len() != BIDESCROWSTATE ==> r == Err::<(), ProcessError>(ProcessError::InvalidAccountData)
                && final(dst)@ == old(dst)@,
    {
        if dst.len() != BIDESCROWSTATE {
            return Err(ProcessError::InvalidAccountData);
        }
        src.pack_into_slice(dst);
        Ok(())
    }
}

/// Encoding then decoding a platform record gives it back: its encoding
/// decodes, and any record with the same encoding has the same fields.
pub proof fn lemma_platform_round_trip(x: PlatformState, y: PlatformState)
    requires
        platform_bytes(y@) == platform_bytes(x@),
    ensures
        platform_decodes(platform_bytes(x@)),
        y@ == x@,
{
    let s = platform_bytes(x@);
    assert(s.subrange(1, 33) =~= x@.authority);
    assert(s.subrange(1, 33) =~= y@.authority);
    assert(s.subrange(33, 41) =~= be_bytes(x.platform_fee));
    assert(s.subrange(33, 41) =~= be_bytes(y.platform_fee));
    assert(s.subrange(41, 49) =~= be_bytes(x.nonce));
    assert(s.subrange(41, 49) =~= be_bytes(y.nonce));
    lemma_be_value_of_bytes(x.platform_fee);
    lemma_be_value_of_bytes(y.platform_fee);
    lemma_be_value_of_bytes(x.nonce);
    lemma_be_value_of_bytes(y.nonce);
    assert(s[0] == bool_byte(x.is_initialized));
    assert(s[0] == bool_byte(y.is_initialized));
}

/// Encoding then decoding a listing record gives it back.
pub proof fn lemma_list_escrow_round_trip(x: ListEscrowState, y: ListEscrowState)
    requires
        list_escrow_bytes(y@) == list_escrow_bytes(x@),
    ensures
        list_escrow_decodes(list_escrow_bytes(x@)),
        y@ == x@,
{
    let s = list_escrow_bytes(x@);
    assert(s.subrange(0, 32) =~= x@.lister);
    assert(s.subrange(0, 32) =~= y@.lister);
    assert(s.subrange(32, 64) =~= x@.mint);
    assert(s.subrange(32, 64) =~= y@.mint);
    assert(s.subrange(64, 72) =~= be_bytes(x.amount));
    assert(s.subrange(64, 72) =~= be_bytes(y.amount));
    assert(s.subrange(73, 105) =~= x@.successful_buyer);
    assert(s.subrange(73, 105) =~= y@.successful_buyer);
    lemma_be_value_of_bytes(x.amount);
    lemma_be_value_of_bytes(y.amount);
    assert(s[72] == bool_byte(x.success));
    assert(s[72] == bool_byte(y.success));
}

/// Encoding then decoding a bid record gives it back.
pub proof fn lemma_bid_escrow_round_trip(x: BidEscrowState, y: BidEscrowState)
    requires
        bid_escrow_bytes(y@) == bid_escrow_bytes(x@),
    ensures
        bid_escrow_decodes(bid_escrow_bytes(x@)),
        y@ == x@,
{
    let s = bid_escrow_bytes(x@);
    assert(s.subrange(0, 32) =~= x@.bidder);
    assert(s.subrange(0, 32) =~= y@.bidder);
    assert(s.subrange(32, 64) =~= x@.mint);
    assert(s.subrange(32, 64) =~= y@.mint);
    assert(s.subrange(64, 72) =~= be_bytes(x.amount));
    assert(s.subrange(64, 72) =~= be_bytes(y.amount));
    lemma_be_value_of_bytes(x.amount);
    lemma_be_value_of_bytes(y.amount);
}

pub open spec fn platform_initialized(d: Seq<u8>) -> bool {
    d[0] == 1
}

pub open spec fn platform_authority(d: Seq<u8>) -> Seq<u8> {
    d.subrange(1, 33)
}

pub open spec fn platform_fee_of(d: Seq<u8>) -> u64 {
    be_value(d.subrange(33, 41))
}

pub open spec fn platform_nonce(d: Seq<u8>) -> u64 {
    be_value(d.subrange(41, 49))
}

pub open spec fn list_lister(d: Seq<u8>) -> Seq<u8> {
    d.subrange(0, 32)
}

pub open spec fn list_mint(d: Seq<u8>) -> Seq<u8> {
    d.subrange(32, 64)
}

pub open spec fn list_settled(d: Seq<u8>) -> bool {
    d[72] == 1
}

pub open spec fn list_buyer(d: Seq<u8>) -> Seq<u8> {
    d.subrange(73, 105)
}

pub open spec fn bid_bidder(d: Seq<u8>) -> Seq<u8> {
    d.subrange(0, 32)
}

pub open spec fn bid_amount(d: Seq<u8>) -> u64 {
    be_value(d.subrange(64, 72))
}

/// The fields of a platform record, read from its encoding.
pub proof fn lemma_platform_fields(x: PlatformState, d: Seq<u8>)
    requires
        platform_bytes(x@) == d,
    ensures
        x.is_initialized == platform_initialized(d),
        x.authority.bytes@ == platform_authority(d),
        x.platform_fee == platform_fee_of(d),
        x.nonce == platform_nonce(d),
{
    assert(d.subrange(1, 33) =~= x.authority.bytes@);
    assert(d.subrange(33, 41) =~= be_bytes(x.platform_fee));
    assert(d.subrange(41, 49) =~= be_bytes(x.nonce));
    lemma_be_value_of_bytes(x.platform_fee);
    lemma_be_value_of_bytes(x.nonce);
}

/// The fields of a listing record, read from its encoding.
pub proof fn lemma_list_escrow_fields(x: ListEscrowState, d: Seq<u8>)
    requires
        list_escrow_bytes(x@) == d,
    ensures
        x.lister.bytes@ == list_lister(d),
        x.mint.bytes@ == list_mint(d),
        x.success == list_settled(d),
        x.successful_buyer.bytes@ == list_buyer(d),
{
    assert(d.subrange(0, 32) =~= x.lister.bytes@);
    assert(d.subrange(32, 64) =~= x.mint.bytes@);
    assert(d.subrange(73, 105) =~= x.successful_buyer.bytes@);
}

/// The fields of a bid record, read from its encoding.
pub proof fn lemma_bid_escrow_fields(x: BidEscrowState, d: Seq<u8>)
    requires
        bid_escrow_bytes(x@) == d,
    ensures
        x.bidder.bytes@ == bid_bidder(d),
        x.amount == bid_amount(d),
{
    assert(d.subrange(0, 32) =~= x.bidder.bytes@);
    assert(d.subrange(64, 72) =~= be_bytes(x.amount));
    lemma_be_value_of_bytes(x.amount);
}

} // verus!
