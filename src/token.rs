use vstd::prelude::*;
use crate::address::Address;
use crate::error::ProcessError;
use solana_program::program_pack::Pack;

verus! {

/// Encoded size of a custody account record.
pub const TOKEN_ACCOUNT_LEN: usize = 165;

/// The asset-transfer service's program id (Tokenkeg...5DA).
pub open spec fn token_program_bytes() -> Seq<u8> {
    seq![
        6u8, 221, 246, 225, 215, 101, 161, 147, 217, 203, 225, 70, 206, 235, 121, 172,
        28, 180, 133, 237, 95, 91, 55, 145, 58, 140, 245, 133, 126, 255, 0, 169,
    ]
}

/// The system service's program id: 32 zero bytes.
pub open spec fn system_program_bytes() -> Seq<u8> {
    Seq::new(32, |i: int| 0u8)
}

/// Relies on spl_token's `id()`: the program id declared by the crate.
#[verifier::external_body]
fn spl_token_id() -> (r: Address)
    ensures
        r.bytes@ == token_program_bytes(),
{
    Address { bytes: spl_token::id().to_bytes() }
}

/// Relies on solana_program's `system_program::id()`: the system program's id.
#[verifier::external_body]
fn system_id() -> (r: Address)
    ensures
        r.bytes@ == system_program_bytes(),
{
    Address { bytes: solana_program::system_program::id().to_bytes() }
}

/// The asset-transfer service's identity.
pub fn token_program_id() -> (r: Address)
    ensures
        r.bytes@ == token_program_bytes(),
{
    spl_token_id()
}

/// The system service's identity.
pub fn system_program_id() -> (r: Address)
    ensures
        r.bytes@ == system_program_bytes(),
{
    system_id()
}

/// The parts of an asset-custody account that the protocol reads.
#[derive(Clone, Copy, Debug)]
pub struct TokenHolding {
    pub mint: Address,
    pub owner: Address,
}

/// Whether four bytes are an optional-value tag: 0 or 1, little-endian.
pub open spec fn option_tag_ok(s: Seq<u8>, off: int) -> bool {
    s[off + 1] == 0 && s[off + 2] == 0 && s[off + 3] == 0 && (s[off] == 0 || s[off] == 1)
}

/// Whether bytes are a custody account record: 165 bytes, with the delegate,
/// native-amount and close-authority tags well formed and the state byte one
/// of uninitialized, initialized, frozen.
pub open spec fn token_account_decodes(s: Seq<u8>) -> bool {
    &&& s.len() == TOKEN_ACCOUNT_LEN
    &&& option_tag_ok(s, 72)
    &&& s[108] <= 2
    &&& option_tag_ok(s, 109)
    &&& option_tag_ok(s, 129)
}

pub open spec fn token_mint(s: Seq<u8>) -> Seq<u8> {
    s.subrange(0, 32)
}

pub open spec fn token_owner(s: Seq<u8>) -> Seq<u8> {
    s.subrange(32, 64)
}

/// Relies on spl_token's `Account::unpack_unchecked`: it refuses a buffer
/// that is not 165 bytes, a bad optional tag or an unknown state byte, and
/// reads the mint and the owner from the first 64 bytes.
#[verifier::external_body]
fn unpack_token_account(data: &[u8]) -> (r: Option<TokenHolding>)
    ensures
        r is Some <==> token_account_decodes(data@),
        r matches Some(h) ==> h.mint.bytes@ == token_mint(data@) && h.owner.bytes@ == token_owner(data@),
{
    spl_token::state::Account::unpack_unchecked(data).ok().map(
        |a| TokenHolding { mint: Address { bytes: a.mint.to_bytes() }, owner: Address { bytes: a.owner.to_bytes() } },
    )
}

impl TokenHolding {
    /// Reads a custody account, or `InvalidAccountData` where it is not one.
    pub fn unpack(data: &[u8]) -> (r: Result<TokenHolding, ProcessError>)
        ensures
            r is Ok <==> token_account_decodes(data@),
            r matches Ok(h) ==> h.mint.bytes@ == token_mint(data@) && h.owner.bytes@ == token_owner(data@),
            r is Err ==> r == Err::<TokenHolding, ProcessError>(ProcessError::InvalidAccountData),
    {
        match unpack_token_account(data) {
            Some(h) => Ok(h),
            None => Err(ProcessError::InvalidAccountData),
        }
    }
}

} // verus!
