//! Ledger addresses and the derivation of an escrow's custody addresses.

use vstd::prelude::*;
use vstd::bytes::{spec_u64_to_le_bytes, u64_to_le_bytes};
use anchor_lang::prelude::Pubkey;
use crate::table::Key;

verus! {

/// A 32-byte identity on the ledger: a party, an asset class or an account.
#[derive(Clone, Copy, Debug, PartialEq, Eq)]
pub struct Address {
    pub bytes: [u8; 32],
}

impl View for Address {
    type V = Seq<u8>;

    open spec fn view(&self) -> Seq<u8> {
        self.bytes@
    }
}

impl Address {
    /// The address with the given bytes.
    pub open spec fn of(bytes: Seq<u8>) -> Address {
        choose|a: Address| a@ == bytes
    }

    /// An address is determined by its bytes.
    pub proof fn lemma_of_view(a: Address)
        ensures
            Address::of(a@) == a,
            a@.len() == 32,
    {
        let b = Address::of(a@);
        assert(b@ == a@);
        assert(b.bytes =~= a.bytes);
    }

    pub fn new(bytes: [u8; 32]) -> (a: Address)
        ensures
            a.bytes == bytes,
    {
        Address { bytes }
    }

    /// The bytes of the address, in order.
    pub fn to_vec(&self) -> (v: Vec<u8>)
        ensures
            v@ == self@,
    {
        let mut v: Vec<u8> = Vec::new();
        let mut i: usize = 0;
        while i < 32
            invariant
                i <= 32,
                v@.len() == i,
                forall|j: int| 0 <= j < i ==> v@[j] == self.bytes[j],
            decreases 32 - i,
        {
            v.push(self.bytes[i]);
            i += 1;
        }
        assert(v@ =~= self@);
        v
    }
}

impl Key for Address {
    fn same(&self, other: &Address) -> (r: bool) {
        let mut i: usize = 0;
        while i < 32
            invariant
                i <= 32,
                forall|j: int| 0 <= j < i ==> self.bytes[j] == other.bytes[j],
            decreases 32 - i,
        {
            if self.bytes[i] != other.bytes[i] {
                return false;
            }
            i += 1;
        }
        assert(self.bytes =~= other.bytes);
        true
    }
}

/// The program under which every custody address is derived.
pub const PROGRAM_ID: [u8; 32] = [
    50, 74, 49, 28, 110, 12, 141, 201, 140, 74, 217, 105, 76, 135, 0, 79,
    49, 242, 233, 143, 103, 201, 136, 212, 7, 72, 81, 145, 214, 89, 126, 118,
];

/// Domain tag of the escrow record's address: the bytes of `escrow`.
pub const ESCROW_TAG: [u8; 6] = [101, 115, 99, 114, 111, 119];

/// Domain tag of the authority's address: the bytes of `auth`.
pub const AUTH_TAG: [u8; 4] = [97, 117, 116, 104];

/// Domain tag of the vault's address: the bytes of `vault`.
pub const VAULT_TAG: [u8; 5] = [118, 97, 117, 108, 116];

/// Domain tag of the claim token's asset class: the bytes of `mint`.
pub const MINT_TAG: [u8; 4] = [109, 105, 110, 116];

/// What `Pubkey::try_find_program_address` returns for these seeds under
/// this program: the derived address and its bump, if a bump exists.
pub uninterp spec fn found_address(seeds: Seq<Seq<u8>>, program: Seq<u8>) -> Option<(Seq<u8>, u8)>;

/// What `Pubkey::create_program_address` returns for these seeds under this
/// program: the derived address, or nothing where it reports an error.
pub uninterp spec fn created_address(seeds: Seq<Seq<u8>>, program: Seq<u8>) -> Option<Seq<u8>>;

/// The seeds held by a vector of byte strings.
pub open spec fn seeds_view(seeds: &Vec<Vec<u8>>) -> Seq<Seq<u8>> {
    Seq::new(seeds@.len(), |i: int| seeds@[i]@)
}

pub open spec fn found_view(r: Option<(Address, u8)>) -> Option<(Seq<u8>, u8)> {
    match r {
        Some((a, b)) => Some((a@, b)),
        None => None,
    }
}

pub open spec fn created_view(r: Option<Address>) -> Option<Seq<u8>> {
    match r {
        Some(a) => Some(a@),
        None => None,
    }
}

/// Calls `Pubkey::try_find_program_address`. The result is the named one;
/// and, as that function returns the first address that
/// `Pubkey::create_program_address` accepts for the seeds followed by a
/// bump, the address it found is the one created from the seeds and that bump.
#[verifier::external_body]
fn try_find_program_address(seeds: &Vec<Vec<u8>>, program: &Address) -> (r: Option<(Address, u8)>)
    ensures
        found_view(r) == found_address(seeds_view(seeds), program@),
        r matches Some((a, b)) ==> created_address(seeds_view(seeds).push(seq![b]), program@)
            == Some(a@),
{
    let parts: Vec<&[u8]> = seeds.iter().map(|s| s.as_slice()).collect();
    match Pubkey::try_find_program_address(&parts, &Pubkey::new_from_array(program.bytes)) {
        Some((key, bump)) => Some((Address { bytes: key.to_bytes() }, bump)),
        None => None,
    }
}

/// Calls `Pubkey::create_program_address`, keeping the address and dropping
/// the kind of error.
#[verifier::external_body]
fn create_program_address(seeds: &Vec<Vec<u8>>, program: &Address) -> (r: Option<Address>)
    ensures
        created_view(r) == created_address(seeds_view(seeds), program@),
{
    let parts: Vec<&[u8]> = seeds.iter().map(|s| s.as_slice()).collect();
    match Pubkey::create_program_address(&parts, &Pubkey::new_from_array(program.bytes)) {
        Ok(key) => Some(Address { bytes: key.to_bytes() }),
        Err(_) => None,
    }
}

/// Seeds of an escrow record's address: the tag, the maker, and the seed
/// number in little-endian bytes.
pub open spec fn escrow_seeds(maker: Address, seed: u64) -> Seq<Seq<u8>> {
    seq![ESCROW_TAG@, maker@, spec_u64_to_le_bytes(seed)]
}

/// Seeds of an address that hangs off an escrow record: the tag and the
/// record's address.
pub open spec fn custody_seeds(tag: Seq<u8>, escrow: Address) -> Seq<Seq<u8>> {
    seq![tag, escrow@]
}

/// The seeds followed by a one-byte bump.
pub open spec fn with_bump(seeds: Seq<Seq<u8>>, bump: u8) -> Seq<Seq<u8>> {
    seeds.push(seq![bump])
}

fn tag_bytes(tag: &[u8]) -> (v: Vec<u8>)
    ensures
        v@ == tag@,
{
    let mut v: Vec<u8> = Vec::new();
    let mut i: usize = 0;
    while i < tag.len()
        invariant
            i <= tag@.len(),
            v@.len() == i,
            forall|j: int| 0 <= j < i ==> v@[j] == tag@[j],
        decreases tag@.len() - i,
    {
        v.push(tag[i]);
        i += 1;
    }
    assert(v@ =~= tag@);
    v
}

fn escrow_seed_parts(maker: &Address, seed: u64) -> (parts: Vec<Vec<u8>>)
    ensures
        seeds_view(&parts) == escrow_seeds(*maker, seed),
{
    let mut parts: Vec<Vec<u8>> = Vec::new();
    parts.push(tag_bytes(ESCROW_TAG.as_slice()));
    parts.push(maker.to_vec());
    parts.push(u64_to_le_bytes(seed));
    assert(seeds_view(&parts) =~= escrow_seeds(*maker, seed));
    parts
}

fn custody_seed_parts(tag: &[u8], escrow: &Address) -> (parts: Vec<Vec<u8>>)
    ensures
        seeds_view(&parts) == custody_seeds(tag@, *escrow),
{
    let mut parts: Vec<Vec<u8>> = Vec::new();
    parts.push(tag_bytes(tag));
    parts.push(escrow.to_vec());
    assert(seeds_view(&parts) =~= custody_seeds(tag@, *escrow));
    parts
}

fn push_bump(parts: Vec<Vec<u8>>, bump: u8) -> (out: Vec<Vec<u8>>)
    ensures
        seeds_view(&out) == with_bump(seeds_view(&parts), bump),
{
    let mut out = parts;
    let mut last: Vec<u8> = Vec::new();
    last.push(bump);
    assert(last@ =~= seq![bump]);
    out.push(last);
    assert(seeds_view(&out) =~= with_bump(seeds_view(&parts), bump));
    out
}

/// An address found for some seeds, with the bump that completes them.
#[derive(Clone, Copy, Debug, PartialEq, Eq)]
pub struct Found {
    pub address: Address,
    pub bump: u8,
}

/// The found address that a derivation's result stands for.
pub open spec fn found_of(r: Option<(Seq<u8>, u8)>) -> Option<Found> {
    match r {
        Some((a, b)) => Some(Found { address: Address::of(a), bump: b }),
        None => None,
    }
}

/// The address that a derivation's result stands for.
pub open spec fn address_of(r: Option<Seq<u8>>) -> Option<Address> {
    match r {
        Some(a) => Some(Address::of(a)),
        None => None,
    }
}

/// The address of the record of the escrow that `maker` opens under `seed`.
pub open spec fn spec_find_escrow(maker: Address, seed: u64) -> Option<Found> {
    found_of(found_address(escrow_seeds(maker, seed), PROGRAM_ID@))
}

/// The address that hangs off the record at `escrow` under `tag`.
pub open spec fn spec_find_custody(tag: Seq<u8>, escrow: Address) -> Option<Found> {
    found_of(found_address(custody_seeds(tag, escrow), PROGRAM_ID@))
}

/// The record address that `maker`, `seed` and a stored bump give.
pub open spec fn spec_escrow_address(maker: Address, seed: u64, bump: u8) -> Option<Address> {
    address_of(created_address(with_bump(escrow_seeds(maker, seed), bump), PROGRAM_ID@))
}

/// The address that hangs off the record at `escrow` under `tag`, at a
/// stored bump.
pub open spec fn spec_custody_address(tag: Seq<u8>, escrow: Address, bump: u8) -> Option<Address> {
    address_of(created_address(with_bump(custody_seeds(tag, escrow), bump), PROGRAM_ID@))
}

fn found(r: Option<(Address, u8)>) -> (f: Option<Found>)
    ensures
        f == found_of(found_view(r)),
{
    match r {
        Some((a, b)) => {
            proof {
                Address::lemma_of_view(a);
            }
            Some(Found { address: a, bump: b })
        },
        None => None,
    }
}

/// Finds the address of the record of the escrow that `maker` opens under
/// `seed`, and its bump. What it finds, the same seeds and that bump create.
pub fn find_escrow(maker: &Address, seed: u64) -> (f: Option<Found>)
    ensures
        f == spec_find_escrow(*maker, seed),
        f matches Some(x) ==> spec_escrow_address(*maker, seed, x.bump) == Some(x.address),
{
    let parts = escrow_seed_parts(maker, seed);
    let r = try_find_program_address(&parts, &Address::new(PROGRAM_ID));
    proof {
        if let Some((a, b)) = r {
            Address::lemma_of_view(a);
        }
    }
    found(r)
}

/// Finds the address that hangs off the record at `escrow` under `tag`, and
/// its bump. What it finds, the same seeds and that bump create.
pub fn find_custody(tag: &[u8], escrow: &Address) -> (f: Option<Found>)
    ensures
        f == spec_find_custody(tag@, *escrow),
        f matches Some(x) ==> spec_custody_address(tag@, *escrow, x.bump) == Some(x.address),
{
    let parts = custody_seed_parts(tag, escrow);
    let r = try_find_program_address(&parts, &Address::new(PROGRAM_ID));
    proof {
        if let Some((a, b)) = r {
            Address::lemma_of_view(a);
        }
    }
    found(r)
}

/// The record address that `maker`, `seed` and a stored bump give.
pub fn escrow_address(maker: &Address, seed: u64, bump: u8) -> (a: Option<Address>)
    ensures
        a == spec_escrow_address(*maker, seed, bump),
{
    let parts = push_bump(escrow_seed_parts(maker, seed), bump);
    let r = create_program_address(&parts, &Address::new(PROGRAM_ID));
    proof {
        if let Some(x) = r {
            Address::lemma_of_view(x);
        }
    }
    r
}

/// The address that hangs off the record at `escrow` under `tag`, at a
/// stored bump.
pub fn custody_address(tag: &[u8], escrow: &Address, bump: u8) -> (a: Option<Address>)
    ensures
        a == spec_custody_address(tag@, *escrow, bump),
{
    let parts = push_bump(custody_seed_parts(tag, escrow), bump);
    let r = create_program_address(&parts, &Address::new(PROGRAM_ID));
    proof {
        if let Some(x) = r {
            Address::lemma_of_view(x);
        }
    }
    r
}

/// The seeds by which the program signs for the authority of the escrow at
/// `escrow`: the authority's tag, the record's address and the stored bump.
pub fn authority_signer_seeds(escrow: &Address, bump: u8) -> (parts: Vec<Vec<u8>>)
    ensures
        seeds_view(&parts) == with_bump(custody_seeds(AUTH_TAG@, *escrow), bump),
{
    push_bump(custody_seed_parts(AUTH_TAG.as_slice(), escrow), bump)
}

} // verus!
