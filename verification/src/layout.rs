//! The stored form of an escrow record: a fixed number of bytes, the fields
//! in their order, numbers in little-endian.

use vstd::prelude::*;
use vstd::bytes::{
    lemma_auto_spec_u64_to_from_le_bytes, spec_u64_from_le_bytes, spec_u64_to_le_bytes,
    u64_from_le_bytes, u64_to_le_bytes,
};
use vstd::slice::slice_subrange;
use crate::address::Address;
use crate::state::Escrow;

verus! {

/// The eight bytes that mark stored data as an escrow record.
pub const DISCRIMINATOR: [u8; 8] = [31, 213, 123, 187, 186, 22, 218, 155];

/// The address stored at `at`.
pub open spec fn address_at(data: Seq<u8>, at: int) -> Address {
    Address::of(data.subrange(at, at + 32))
}

/// The number stored at `at`.
pub open spec fn number_at(data: Seq<u8>, at: int) -> u64 {
    spec_u64_from_le_bytes(data.subrange(at, at + 8))
}

impl Escrow {
    /// The stored form of the record: the mark, the four addresses, the
    /// offer, the seed, the expiry, the locking period, the three bumps and
    /// the time of creation.
    pub open spec fn spec_to_bytes(&self) -> Seq<u8> {
        DISCRIMINATOR@ + self.maker@ + self.maker_mint@ + self.taker_mint@ + self.taker@
            + seq![self.offer_amount] + spec_u64_to_le_bytes(self.seed) + spec_u64_to_le_bytes(
            self.expiry,
        ) + spec_u64_to_le_bytes(self.locking_period) + seq![
            self.auth_bump,
            self.vault_bump,
            self.escrow_bump,
        ] + spec_u64_to_le_bytes(self.created_time)
    }

    /// The record that stored data holds: data of the stored size that
    /// begins with the mark holds a record, and no other data does.
    pub open spec fn spec_from_bytes(data: Seq<u8>) -> Option<Escrow> {
        if data.len() == Escrow::LEN && data.subrange(0, 8) == DISCRIMINATOR@ {
            Some(
                Escrow {
                    maker: address_at(data, 8),
                    maker_mint: address_at(data, 40),
                    taker_mint: address_at(data, 72),
                    taker: address_at(data, 104),
                    offer_amount: data[136],
                    seed: number_at(data, 137),
                    expiry: number_at(data, 145),
                    locking_period: number_at(data, 153),
                    auth_bump: data[161],
                    vault_bump: data[162],
                    escrow_bump: data[163],
                    created_time: number_at(data, 164),
                },
            )
        } else {
            None
        }
    }

    /// A record's stored form has the stored size and reads back as that
    /// record.
    pub proof fn law_stored_form(e: Escrow)
        ensures
            e.spec_to_bytes().len() == Escrow::LEN,
            Escrow::spec_from_bytes(e.spec_to_bytes()) == Some(e),
    {
        lemma_auto_spec_u64_to_from_le_bytes();
        Address::lemma_of_view(e.maker);
        Address::lemma_of_view(e.maker_mint);
        Address::lemma_of_view(e.taker_mint);
        Address::lemma_of_view(e.taker);
        let b = e.spec_to_bytes();
        assert(b.len() == 172);
        assert(b.subrange(0, 8) =~= DISCRIMINATOR@);
        assert(b.subrange(8, 40) =~= e.maker@);
        assert(b.subrange(40, 72) =~= e.maker_mint@);
        assert(b.subrange(72, 104) =~= e.taker_mint@);
        assert(b.subrange(104, 136) =~= e.taker@);
        assert(b.subrange(137, 145) =~= spec_u64_to_le_bytes(e.seed));
        assert(b.subrange(145, 153) =~= spec_u64_to_le_bytes(e.expiry));
        assert(b.subrange(153, 161) =~= spec_u64_to_le_bytes(e.locking_period));
        assert(b.subrange(164, 172) =~= spec_u64_to_le_bytes(e.created_time));
    }

    /// Writes the record in its stored form.
    pub fn to_bytes(&self) -> (v: Vec<u8>)
        ensures
            v@ == self.spec_to_bytes(),
            v@.len() == Escrow::LEN,
    {
        let mut v: Vec<u8> = Vec::new();
        v.extend_from_slice(DISCRIMINATOR.as_slice());
        v.extend_from_slice(self.maker.bytes.as_slice());
        v.extend_from_slice(self.maker_mint.bytes.as_slice());
        v.extend_from_slice(self.taker_mint.bytes.as_slice());
        v.extend_from_slice(self.taker.bytes.as_slice());
        v.push(self.offer_amount);
        v.extend_from_slice(u64_to_le_bytes(self.seed).as_slice());
        v.extend_from_slice(u64_to_le_bytes(self.expiry).as_slice());
        v.extend_from_slice(u64_to_le_bytes(self.locking_period).as_slice());
        v.push(self.auth_bump);
        v.push(self.vault_bump);
        v.push(self.escrow_bump);
        v.extend_from_slice(u64_to_le_bytes(self.created_time).as_slice());
        proof {
            lemma_auto_spec_u64_to_from_le_bytes();
            assert(v@ =~= self.spec_to_bytes());
        }
        v
    }

    /// Reads a record from its stored form. Data that reads as a record is
    /// that record's stored form.
    pub fn from_bytes(data: &[u8]) -> (r: Option<Escrow>)
        ensures
            r == Escrow::spec_from_bytes(data@),
            r matches Some(e) ==> e.spec_to_bytes() == data@,
    {
        if data.len() != Escrow::LEN {
            return None;
        }
        let mut i: usize = 0;
        while i < 8
            invariant
                i <= 8,
                data@.len() == Escrow::LEN,
                forall|j: int| 0 <= j < i ==> data@[j] == DISCRIMINATOR@[j],
            decreases 8 - i,
        {
            if data[i] != DISCRIMINATOR[i] {
                assert(data@.subrange(0, 8)[i as int] != DISCRIMINATOR@[i as int]);
                return None;
            }
            i += 1;
        }
        assert(data@.subrange(0, 8) =~= DISCRIMINATOR@);
        let e = Escrow {
            maker: read_address(data, 8),
            maker_mint: read_address(data, 40),
            taker_mint: read_address(data, 72),
            taker: read_address(data, 104),
            offer_amount: data[136],
            seed: read_number(data, 137),
            expiry: read_number(data, 145),
            locking_period: read_number(data, 153),
            auth_bump: data[161],
            vault_bump: data[162],
            escrow_bump: data[163],
            created_time: read_number(data, 164),
        };
        proof {
            lemma_auto_spec_u64_to_from_le_bytes();
            assert(e.spec_to_bytes() =~= data@);
        }
        Some(e)
    }
}

fn read_address(data: &[u8], at: usize) -> (a: Address)
    requires
        at + 32 <= data@.len() <= usize::MAX,
    ensures
        a == address_at(data@, at as int),
        a@ == data@.subrange(at as int, at + 32),
{
    let mut bytes = [0u8; 32];
    let mut i: usize = 0;
    while i < 32
        invariant
            i <= 32,
            at + 32 <= data@.len() <= usize::MAX,
            forall|j: int| 0 <= j < i ==> bytes@[j] == data@[at + j],
        decreases 32 - i,
    {
        bytes[i] = data[at + i];
        i += 1;
    }
    let a = Address { bytes };
    proof {
        assert(a@ =~= data@.subrange(at as int, at + 32));
        Address::lemma_of_view(a);
    }
    a
}

fn read_number(data: &[u8], at: usize) -> (x: u64)
    requires
        at + 8 <= data@.len() <= usize::MAX,
    ensures
        x == number_at(data@, at as int),
{
    u64_from_le_bytes(slice_subrange(data, at, at + 8))
}

} // verus!
