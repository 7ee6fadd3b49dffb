//! Addresses of parties, assets and custody locations, and the derivation of the
//! locations that belong to one offer.

use anchor_lang::prelude::Pubkey;
use vstd::bytes::spec_u64_to_le_bytes;
use vstd::bytes::u64_to_le_bytes;
use vstd::prelude::*;

verus! {

/// A 32-byte address: a party, an asset, a program, or a custody location.
/// Nothing is read out of the bytes; addresses are only compared.
#[derive(Clone, Copy, Debug)]
pub struct Address {
    pub bytes: [u8; 32],
}

impl View for Address {
    type V = Seq<u8>;

    open spec fn view(&self) -> Seq<u8> {
        self.bytes@
    }
}

impl PartialEq for Address {
    fn eq(&self, other: &Address) -> (r: bool) {
        let mut i: usize = 0;
        while i < 32
            invariant
                i <= 32,
                forall|j: int| 0 <= j < i ==> self.bytes[j] == other.bytes[j],
            decreases 32 - i,
        {
            if self.bytes[i] != other.bytes[i] {
                return false;
            }
            i = i + 1;
        }
        proof {
            assert(self.bytes =~= other.bytes);
        }
        true
    }
}

impl Eq for Address {}

impl vstd::std_specs::cmp::PartialEqSpecImpl for Address {
    open spec fn obeys_eq_spec() -> bool {
        true
    }

    open spec fn eq_spec(&self, other: &Address) -> bool {
        *self == *other
    }
}

/// Two addresses are the same address exactly when they hold the same bytes.
pub proof fn lemma_address_by_bytes(a: Address, b: Address)
    ensures
        a@.len() == 32,
        (a == b) <==> (a@ == b@),
{
    if a@ == b@ {
        assert(forall|i: int| 0 <= i < 32 ==> a.bytes[i] == a@[i]);
        assert(forall|i: int| 0 <= i < 32 ==> b.bytes[i] == b@[i]);
        assert(a.bytes =~= b.bytes);
    }
}

impl Address {
    pub fn new(bytes: [u8; 32]) -> (r: Address)
        ensures
            r.bytes == bytes,
    {
        Address { bytes }
    }

    pub fn to_bytes(&self) -> (r: [u8; 32])
        ensures
            r == self.bytes,
    {
        self.bytes
    }

    /// The bytes as a seed for a derivation.
    pub fn to_seed(&self) -> (r: Vec<u8>)
        ensures
            r@ == self@,
    {
        let mut out: Vec<u8> = Vec::new();
        let mut i: usize = 0;
        while i < 32
            invariant
                i <= 32,
                out@.len() == i,
                forall|j: int| 0 <= j < i ==> out@[j] == self.bytes[j],
            decreases 32 - i,
        {
            out.push(self.bytes[i]);
            i = i + 1;
        }
        proof {
            assert(out@ =~= self@);
        }
        out
    }
}

/// What a derived location is for: the offer's record, or the vault that
/// holds the maker's deposit.
#[derive(Clone, Copy, Debug, PartialEq, Eq, Structural)]
pub enum Role {
    Record,
    Vault,
}

/// The tag that keeps the two roles apart: the ASCII bytes of `escrow` and of
/// `vault`.
pub open spec fn role_tag(role: Role) -> Seq<u8> {
    match role {
        Role::Record => seq![101u8, 115u8, 99u8, 114u8, 111u8, 119u8],
        Role::Vault => seq![118u8, 97u8, 117u8, 108u8, 116u8],
    }
}

/// The seeds of an offer's location: the role's tag, the maker, and the
/// maker's seed as eight little-endian bytes.
pub open spec fn custody_seeds(role: Role, maker: Address, seed: u64) -> Seq<Seq<u8>> {
    seq![role_tag(role), maker@, spec_u64_to_le_bytes(seed)]
}

/// What `Pubkey::try_find_program_address` returns for a program and a list
/// of seeds: the derived address and its bump seed, or nothing where no bump
/// seed yields an address.
pub uninterp spec fn program_address(program: Seq<u8>, seeds: Seq<Seq<u8>>) -> Option<(Seq<u8>, u8)>;

/// The address that holds the given bytes.
pub open spec fn address_of(bytes: Seq<u8>) -> Address {
    choose|at: Address| at@ == bytes
}

/// Every address is the address of its own bytes.
pub proof fn lemma_address_of(at: Address)
    ensures
        address_of(at@) == at,
{
    lemma_address_by_bytes(address_of(at@), at);
}

/// The location derived for `(maker, seed)` in `role` under `program`, if
/// the derivation yields one: the address that `program_address` gives for
/// the program and the seeds of the location.
pub open spec fn derived(program: Address, role: Role, maker: Address, seed: u64) -> Option<Address> {
    match program_address(program@, custody_seeds(role, maker, seed)) {
        Some((bytes, _)) => Some(address_of(bytes)),
        None => None,
    }
}

/// Calls `Pubkey::try_find_program_address`, which `anchor_lang` hands on
/// from `solana_pubkey`, on the seeds and the program's address. It returns
/// for every input: nothing where no bump seed yields an address, where
/// there are too many seeds, or where a seed is too long. The contract only
/// names the outcome: it claims that the same program and seeds always give
/// the same address and bump seed, or always none, and nothing of which
/// address that is.
#[verifier::external_body]
fn find_program_address(program: &Address, seeds: &Vec<Vec<u8>>) -> (r: Option<(Address, u8)>)
    ensures
        r matches Some((at, bump)) ==> program_address(program@, seeds.deep_view()) == Some((at@, bump)),
        r is None ==> program_address(program@, seeds.deep_view()) is None,
{
    let parts: Vec<&[u8]> = seeds.iter().map(|s| s.as_slice()).collect();
    Pubkey::try_find_program_address(&parts, &Pubkey::new_from_array(program.bytes))
        .map(|(key, bump)| (Address { bytes: key.to_bytes() }, bump))
}

fn tag_of(role: Role) -> (r: Vec<u8>)
    ensures
        r@ == role_tag(role),
{
    let mut tag: Vec<u8> = Vec::new();
    match role {
        Role::Record => {
            tag.push(101u8);
            tag.push(115u8);
            tag.push(99u8);
            tag.push(114u8);
            tag.push(111u8);
            tag.push(119u8);
        },
        Role::Vault => {
            tag.push(118u8);
            tag.push(97u8);
            tag.push(117u8);
            tag.push(108u8);
            tag.push(116u8);
        },
    }
    proof {
        assert(tag@ =~= role_tag(role));
    }
    tag
}

/// Derives the location of an offer's record or vault from the maker and the
/// maker's seed. The same inputs always give the same location, so nobody
/// has to hand out identifiers.
pub fn locate(program: &Address, role: Role, maker: &Address, seed: u64) -> (r: Option<Address>)
    ensures
        r == derived(*program, role, *maker, seed),
{
    let mut seeds: Vec<Vec<u8>> = Vec::new();
    seeds.push(tag_of(role));
    seeds.push(maker.to_seed());
    seeds.push(u64_to_le_bytes(seed));
    proof {
        let want = custody_seeds(role, *maker, seed);
        assert(seeds.deep_view().len() == 3);
        assert(seeds@[0].deep_view() =~= want[0]);
        assert(seeds@[1].deep_view() =~= want[1]);
        assert(seeds@[2].deep_view() =~= want[2]);
        assert(seeds.deep_view() =~= want);
    }
    match find_program_address(program, &seeds) {
        Some((at, _)) => {
            proof {
                lemma_address_of(at);
            }
            Some(at)
        },
        None => None,
    }
}

} // verus!
