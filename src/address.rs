//! Deterministic derivation of program addresses from a namespace tag and an
//! owner key, and the check that an address was derived that way.

use vstd::prelude::*;
use anchor_lang::solana_program::pubkey::Pubkey;
use crate::error::ErrorCode;

verus! {

broadcast use vstd::array::group_array_axioms;

/// A 32-byte account key.
pub type Address = [u8; 32];

/// The address derived for `seeds` under `program`, with its bump byte, or
/// `None`: where there are 16 seeds or more (the bump byte is appended as
/// one more) or a seed longer than 32 bytes, or where no bump byte from 255 down to 1 yields an address off
/// the curve.
pub uninterp spec fn program_address(seeds: Seq<Seq<u8>>, program: Seq<u8>) -> Option<(Seq<u8>, u8)>;

/// Relies on `Pubkey::try_find_program_address`: a pure function of the seeds
/// and the program id, which returns `None` instead of panicking when no bump
/// byte gives a valid address.
#[verifier::external_body]
fn try_find_program_address(tag: &[u8], owner: &Address, program: &Address) -> (r: Option<(Address, u8)>)
    ensures
        match r {
            Some((a, b)) => program_address(seq![tag@, owner@], program@) == Some((a@, b)),
            None => program_address(seq![tag@, owner@], program@) is None,
        },
{
    let program_id = Pubkey::new_from_array(*program);
    Pubkey::try_find_program_address(&[tag, owner.as_ref()], &program_id)
        .map(|(a, b)| (a.to_bytes(), b))
}

/// Whether two keys are the same, byte for byte.
pub fn same_address(a: &Address, b: &Address) -> (r: bool)
    ensures
        r == (*a == *b),
{
    let mut i: usize = 0;
    while i < 32
        invariant
            i <= 32,
            forall|j: int| 0 <= j < i ==> a[j] == b[j],
        decreases 32 - i,
    {
        if a[i] != b[i] {
            return false;
        }
        i = i + 1;
    }
    assert(*a =~= *b);
    true
}

/// The namespaces under which the program derives its records.
#[derive(Debug, Clone, Copy, PartialEq, Eq, Structural)]
pub enum Namespace {
    /// The creator's configuration record (`"nft_pda"`).
    Nft,
    /// The creator's collection authority record (`"collection_pda"`).
    Collection,
    /// The token class of the creator's member token `id` (`"member"`
    /// followed by the byte `id`).
    Member(u8),
}

impl Namespace {
    /// The literal tag that prefixes the owner key in the seeds: the ASCII
    /// bytes of `nft_pda`, of `collection_pda`, or of `member` and the id.
    pub open spec fn tag(self) -> Seq<u8> {
        match self {
            Namespace::Nft => seq![110u8, 102u8, 116u8, 95u8, 112u8, 100u8, 97u8],
            Namespace::Collection => seq![
                99u8, 111u8, 108u8, 108u8, 101u8, 99u8, 116u8, 105u8, 111u8, 110u8, 95u8, 112u8, 100u8, 97u8,
            ],
            Namespace::Member(id) => seq![109u8, 101u8, 109u8, 98u8, 101u8, 114u8, id],
        }
    }

    pub fn tag_bytes(&self) -> (r: Vec<u8>)
        ensures
            r@ == self.tag(),
    {
        match self {
            Namespace::Nft => vec![110u8, 102u8, 116u8, 95u8, 112u8, 100u8, 97u8],
            Namespace::Collection => vec![
                99u8, 111u8, 108u8, 108u8, 101u8, 99u8, 116u8, 105u8, 111u8, 110u8, 95u8, 112u8, 100u8, 97u8,
            ],
            Namespace::Member(id) => vec![109u8, 101u8, 109u8, 98u8, 101u8, 114u8, *id],
        }
    }
}

/// The seeds of the address of `owner`'s record in namespace `ns`.
pub open spec fn seeds_of(ns: Namespace, owner: Address) -> Seq<Seq<u8>> {
    seq![ns.tag(), owner@]
}

/// The address and bump derived for `owner` in namespace `ns` under `program`.
pub open spec fn derivation(ns: Namespace, owner: Address, program: Address) -> Option<(Seq<u8>, u8)> {
    program_address(seeds_of(ns, owner), program@)
}

/// The bump that proves `expected` was derived for `owner` in `ns`, or
/// `AddressMismatch`.
pub open spec fn verified_bump(expected: Address, ns: Namespace, owner: Address, program: Address) -> Result<u8, ErrorCode> {
    match derivation(ns, owner, program) {
        Some((a, b)) => if a == expected@ { Ok(b) } else { Err(ErrorCode::AddressMismatch) },
        None => Err(ErrorCode::AddressMismatch),
    }
}

/// The capability to sign as a derived address: the namespace, the owner and
/// the bump that re-derive it.
#[derive(Debug, Clone, Copy)]
pub struct DerivedAuthority {
    pub namespace: Namespace,
    pub owner: Address,
    pub address: Address,
    pub bump: u8,
}

impl DerivedAuthority {
    /// This authority was derived as its fields say.
    pub open spec fn derived_under(self, program: Address) -> bool {
        derivation(self.namespace, self.owner, program) == Some((self.address@, self.bump))
    }
}

/// Derives the address of `owner`'s record in namespace `ns`.
pub fn derive(ns: Namespace, owner: &Address, program: &Address) -> (r: Option<DerivedAuthority>)
    ensures
        match r {
            Some(d) => d.namespace == ns && d.owner == *owner && d.derived_under(*program),
            None => derivation(ns, *owner, *program) is None,
        },
{
    let tag = ns.tag_bytes();
    match try_find_program_address(tag.as_slice(), owner, program) {
        Some((address, bump)) => Some(DerivedAuthority { namespace: ns, owner: *owner, address, bump }),
        None => None,
    }
}

/// The authority to sign as `expected`, when `expected` was derived for
/// `owner` in `ns`; else `AddressMismatch`.
pub open spec fn signer_for(expected: Address, ns: Namespace, owner: Address, program: Address) -> Result<DerivedAuthority, ErrorCode> {
    match verified_bump(expected, ns, owner, program) {
        Ok(bump) => Ok(DerivedAuthority { namespace: ns, owner, address: expected, bump }),
        Err(e) => Err(e),
    }
}

/// Checks that `expected` is the address derived for `owner` in `ns`, and
/// hands back the authority to sign as it.
pub fn verify(expected: &Address, ns: Namespace, owner: &Address, program: &Address) -> (r: Result<DerivedAuthority, ErrorCode>)
    ensures
        match r {
            Ok(d) => verified_bump(*expected, ns, *owner, *program) == Ok::<u8, ErrorCode>(d.bump),
            Err(e) => verified_bump(*expected, ns, *owner, *program) == Err::<u8, ErrorCode>(e),
        },
        r == signer_for(*expected, ns, *owner, *program),
        r matches Ok(d) ==> d.address == *expected && d.namespace == ns && d.owner == *owner
            && d.derived_under(*program),
{
    match derive(ns, owner, program) {
        Some(d) => {
            if same_address(&d.address, expected) {
                assert(derivation(ns, *owner, *program) == Some((expected@, d.bump)));
                Ok(d)
            } else {
                assert(d.address@ != expected@) by {
                    if d.address@ == expected@ {
                        assert(d.address =~= *expected);
                    }
                }
                Err(ErrorCode::AddressMismatch)
            }
        },
        None => Err(ErrorCode::AddressMismatch),
    }
}

/// Verifying the address that `derive` produced always succeeds, with the
/// bump that `derive` produced.
pub proof fn lemma_verify_accepts_derived(ns: Namespace, owner: Address, program: Address, address: Address, bump: u8)
    requires
        derivation(ns, owner, program) == Some((address@, bump)),
    ensures
        verified_bump(address, ns, owner, program) == Ok::<u8, ErrorCode>(bump),
{
}

/// Distinct owners, or distinct namespaces, give distinct seeds: the inputs
/// to the derivation never coincide.
pub proof fn lemma_seeds_injective(ns1: Namespace, owner1: Address, ns2: Namespace, owner2: Address)
    requires
        ns1 != ns2 || owner1 != owner2,
    ensures
        seeds_of(ns1, owner1) != seeds_of(ns2, owner2),
{
    if seeds_of(ns1, owner1) == seeds_of(ns2, owner2) {
        assert(seeds_of(ns1, owner1)[0] == ns1.tag());
        assert(seeds_of(ns2, owner2)[0] == ns2.tag());
        assert(seeds_of(ns1, owner1)[1] == owner1@);
        assert(seeds_of(ns2, owner2)[1] == owner2@);
        if ns1 != ns2 {
            assert(ns1.tag().len() != ns2.tag().len() || ns1.tag()[0] != ns2.tag()[0] || ns1.tag()[6] != ns2.tag()[6]);
        } else {
            assert(owner1 =~= owner2);
        }
    }
}

} // verus!
