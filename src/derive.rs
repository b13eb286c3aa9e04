use vstd::prelude::*;
use crate::address::Address;
use crate::error::ProcessError;
use solana_program::pubkey::Pubkey;

verus! {

/// The address and bump seed that the host derives from a seed tuple under a
/// program id; `None` where no bump gives an address off the curve.
pub uninterp spec fn program_address(seeds: Seq<Seq<u8>>, program_id: Seq<u8>) -> Option<(Seq<u8>, u8)>;

/// A seed tuple as a sequence of byte sequences.
pub open spec fn seeds_view(v: Vec<Vec<u8>>) -> Seq<Seq<u8>> {
    v@.map_values(|s: Vec<u8>| s@)
}

/// Relies on solana_program's `Pubkey::try_find_program_address`: it searches
/// the bump seeds from 255 down, and its result depends on the seeds and the
/// program id alone.
#[verifier::external_body]
fn try_find_program_address(seeds: &Vec<Vec<u8>>, program_id: &Address) -> (r: Option<(Address, u8)>)
    ensures
        match program_address(seeds_view(*seeds), program_id.bytes@) {
            Some((a, b)) => r matches Some((x, y)) && x.bytes@ == a && y == b,
            None => r is None,
        },
{
    let refs: Vec<&[u8]> = seeds.iter().map(|s| s.as_slice()).collect();
    let id = Pubkey::new_from_array(program_id.bytes);
    Pubkey::try_find_program_address(&refs, &id).map(|(k, b)| (Address { bytes: k.to_bytes() }, b))
}

/// Derives the key-less address for a seed tuple, with its bump seed.
pub fn find_program_address(seeds: &Vec<Vec<u8>>, program_id: &Address) -> (r: Option<(Address, u8)>)
    ensures
        match program_address(seeds_view(*seeds), program_id.bytes@) {
            Some((a, b)) => r matches Some((x, y)) && x.bytes@ == a && y == b,
            None => r is None,
        },
{
    try_find_program_address(seeds, program_id)
}

/// Derivation is a function of its inputs: equal seed tuples under equal
/// program ids give equal addresses and bumps, whichever call computes them.
pub proof fn lemma_derivation_deterministic(
    seeds1: Seq<Seq<u8>>,
    seeds2: Seq<Seq<u8>>,
    id1: Seq<u8>,
    id2: Seq<u8>,
)
    requires
        seeds1 == seeds2,
        id1 == id2,
    ensures
        program_address(seeds1, id1) == program_address(seeds2, id2),
{
}

/// Which side of the market an escrow belongs to.
#[derive(PartialEq, Eq, Structural, Clone, Copy, Debug)]
pub enum EscrowKind {
    List,
    Bid,
}

/// Which of an escrow's two accounts: the record or the custody vault.
#[derive(PartialEq, Eq, Structural, Clone, Copy, Debug)]
pub enum Purpose {
    State,
    Vault,
}

pub open spec fn platform_tag() -> Seq<u8> {
    seq![80u8, 108, 97, 116, 102, 111, 114, 109]
}

pub open spec fn state_tag() -> Seq<u8> {
    seq![83u8, 116, 97, 116, 101]
}

pub open spec fn vault_tag() -> Seq<u8> {
    seq![86u8, 97, 117, 108, 116]
}

pub open spec fn kind_tag(k: EscrowKind) -> Seq<u8> {
    match k {
        EscrowKind::List => seq![76u8, 105, 115, 116],
        EscrowKind::Bid => seq![66u8, 105, 100],
    }
}

pub open spec fn purpose_tag(p: Purpose) -> Seq<u8> {
    match p {
        Purpose::State => state_tag(),
        Purpose::Vault => vault_tag(),
    }
}

/// Seeds of the platform record: ("Platform", "State").
pub open spec fn platform_seeds() -> Seq<Seq<u8>> {
    seq![platform_tag(), state_tag()]
}

/// Seeds of an escrow account: (asset, party, kind, purpose).
pub open spec fn escrow_seeds(asset: Address, party: Address, kind: EscrowKind, purpose: Purpose) -> Seq<Seq<u8>> {
    seq![asset.bytes@, party.bytes@, kind_tag(kind), purpose_tag(purpose)]
}

/// The authority under which the program signs for a derived address.
#[derive(Clone, Copy, Debug)]
pub enum Signer {
    Platform { bump: u8 },
    Escrow { asset: Address, party: Address, kind: EscrowKind, purpose: Purpose, bump: u8 },
}

/// The seeds that a signer presents: its derivation seeds followed by its bump.
pub open spec fn signer_seeds_spec(s: Signer) -> Seq<Seq<u8>> {
    match s {
        Signer::Platform { bump } => platform_seeds().push(seq![bump]),
        Signer::Escrow { asset, party, kind, purpose, bump } =>
            escrow_seeds(asset, party, kind, purpose).push(seq![bump]),
    }
}

fn platform_tag_vec() -> (r: Vec<u8>)
    ensures
        r@ == platform_tag(),
{
    let r = vec![80u8, 108, 97, 116, 102, 111, 114, 109];
    assert(r@ =~= platform_tag());
    r
}

fn kind_tag_vec(k: EscrowKind) -> (r: Vec<u8>)
    ensures
        r@ == kind_tag(k),
{
    let r = match k {
        EscrowKind::List => vec![76u8, 105, 115, 116],
        EscrowKind::Bid => vec![66u8, 105, 100],
    };
    assert(r@ =~= kind_tag(k));
    r
}

fn purpose_tag_vec(p: Purpose) -> (r: Vec<u8>)
    ensures
        r@ == purpose_tag(p),
{
    let r = match p {
        Purpose::State => vec![83u8, 116, 97, 116, 101],
        Purpose::Vault => vec![86u8, 97, 117, 108, 116],
    };
    assert(r@ =~= purpose_tag(p));
    r
}

/// The platform record's seed tuple.
pub fn platform_seed_vec() -> (r: Vec<Vec<u8>>)
    ensures
        seeds_view(r) == platform_seeds(),
{
    let mut r: Vec<Vec<u8>> = Vec::new();
    r.push(platform_tag_vec());
    r.push(purpose_tag_vec(Purpose::State));
    assert(seeds_view(r) =~= platform_seeds());
    r
}

/// An escrow account's seed tuple.
pub fn escrow_seed_vec(asset: &Address, party: &Address, kind: EscrowKind, purpose: Purpose) -> (r: Vec<Vec<u8>>)
    ensures
        seeds_view(r) == escrow_seeds(*asset, *party, kind, purpose),
{
    let mut r: Vec<Vec<u8>> = Vec::new();
    r.push(asset.to_vec());
    r.push(party.to_vec());
    r.push(kind_tag_vec(kind));
    r.push(purpose_tag_vec(purpose));
    assert(seeds_view(r) =~= escrow_seeds(*asset, *party, kind, purpose));
    r
}

/// The seeds, bump included, that authorize the program to act for a signer.
pub fn signer_seeds(s: &Signer) -> (r: Vec<Vec<u8>>)
    ensures
        seeds_view(r) == signer_seeds_spec(*s),
{
    let (mut r, bump) = match s {
        Signer::Platform { bump } => (platform_seed_vec(), *bump),
        Signer::Escrow { asset, party, kind, purpose, bump } =>
            (escrow_seed_vec(asset, party, *kind, *purpose), *bump),
    };
    let ghost base = seeds_view(r);
    let b = vec![bump];
    assert(b@ =~= seq![bump]);
    r.push(b);
    assert(seeds_view(r) =~= base.push(seq![bump]));
    r
}

/// The platform record's address, or `InvalidSeeds` where none exists.
pub fn derive_platform(program_id: &Address) -> (r: Result<(Address, u8), ProcessError>)
    ensures
        match program_address(platform_seeds(), program_id.bytes@) {
            Some((a, b)) => r matches Ok((x, y)) && x.bytes@ == a && y == b,
            None => r == Err::<(Address, u8), ProcessError>(ProcessError::InvalidSeeds),
        },
{
    match find_program_address(&platform_seed_vec(), program_id) {
        Some(p) => Ok(p),
        None => Err(ProcessError::InvalidSeeds),
    }
}

/// An escrow account's address, or `InvalidSeeds` where none exists.
pub fn derive_escrow(program_id: &Address, asset: &Address, party: &Address, kind: EscrowKind, purpose: Purpose)
    -> (r: Result<(Address, u8), ProcessError>)
    ensures
        match program_address(escrow_seeds(*asset, *party, kind, purpose), program_id.bytes@) {
            Some((a, b)) => r matches Ok((x, y)) && x.bytes@ == a && y == b,
            None => r == Err::<(Address, u8), ProcessError>(ProcessError::InvalidSeeds),
        },
{
    match find_program_address(&escrow_seed_vec(asset, party, kind, purpose), program_id) {
        Some(p) => Ok(p),
        None => Err(ProcessError::InvalidSeeds),
    }
}

} // verus!
