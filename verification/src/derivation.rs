//! Address derivation: how a custody address is computed from seed
//! byte-strings and a program identifier, and how the bump nonce that places
//! the address outside the keyed-address space is found.

use vstd::prelude::*;

verus! {

/// A 32-byte ledger address: a signer's public key or a program-derived
/// address.
#[derive(Clone, Copy, Debug)]
pub struct Address {
    pub bytes: [u8; 32],
}

impl View for Address {
    type V = Seq<u8>;

    open spec fn view(&self) -> Seq<u8> {
        self.bytes@
    }
}

impl Address {
    /// Byte-wise equality of two addresses.
    pub fn eq_addr(&self, other: &Address) -> (r: bool)
        ensures
            r == (self@ == other@),
    {
        let mut i: usize = 0;
        while i < 32
            invariant
                i <= 32,
                forall|j: int| 0 <= j < i ==> self@[j] == other@[j],
            decreases 32 - i,
        {
            if self.bytes[i] != other.bytes[i] {
                return false;
            }
            i += 1;
        }
        proof {
            assert(self@ =~= other@);
        }
        true
    }

    /// The address as an owned byte-string, ready to serve as a seed.
    pub fn to_seed(&self) -> (r: Vec<u8>)
        ensures
            r@ == self@,
    {
        let mut v: Vec<u8> = Vec::new();
        let mut i: usize = 0;
        while i < 32
            invariant
                i <= 32,
                v@.len() == i,
                forall|j: int| 0 <= j < i ==> v@[j] == self@[j],
            decreases 32 - i,
        {
            v.push(self.bytes[i]);
            i += 1;
        }
        proof {
            assert(v@ =~= self@);
        }
        v
    }
}

/// The address that the ledger's derivation scheme assigns to a seed sequence
/// and a program identifier, or `None` when those seeds are rejected (the
/// derived point lies on the ed25519 curve, or a seed limit is exceeded).
/// The result depends on the seeds and the program identifier alone.
pub uninterp spec fn create_address_of(seeds: Seq<Seq<u8>>, program_id: Seq<u8>) -> Option<Seq<u8>>;

/// The seed sequence extended with its bump nonce as a final one-byte seed.
pub open spec fn with_bump(seeds: Seq<Seq<u8>>, bump: u8) -> Seq<Seq<u8>> {
    seeds.push(seq![bump])
}

/// Relies on `Pubkey::create_program_address` of anchor_lang: the result is a
/// function of the seeds, the bump and the program id alone; it is an error
/// exactly when the derived point lies on the ed25519 curve (so a private key
/// could exist for it) or a seed limit is exceeded.
#[verifier::external_body]
pub(crate) fn create_address(seeds: &Vec<Vec<u8>>, bump: u8, program_id: &Address) -> (r: Option<
    Address,
>)
    ensures
        (match r {
            Some(a) => create_address_of(with_bump(seeds.deep_view(), bump), program_id@) == Some(
                a@,
            ),
            None => create_address_of(with_bump(seeds.deep_view(), bump), program_id@) is None,
        }),
{
    let mut refs: Vec<&[u8]> = seeds.iter().map(|s| s.as_slice()).collect();
    let bump_seed = [bump];
    refs.push(&bump_seed);
    let pid = anchor_lang::prelude::Pubkey::new_from_array(program_id.bytes);
    match anchor_lang::prelude::Pubkey::create_program_address(&refs, &pid) {
        Ok(pk) => Some(Address { bytes: pk.to_bytes() }),
        Err(_) => None,
    }
}

/// The first bump, searching downward from `bump`, whose derivation succeeds,
/// together with the address it derives.
pub open spec fn find_address_of(seeds: Seq<Seq<u8>>, program_id: Seq<u8>, bump: u8) -> Option<
    (Seq<u8>, u8),
>
    decreases bump,
{
    match create_address_of(with_bump(seeds, bump), program_id) {
        Some(a) => Some((a, bump)),
        None => if bump == 0 {
            None
        } else {
            find_address_of(seeds, program_id, (bump - 1) as u8)
        },
    }
}

/// A bump found by the downward search derives exactly the address the search
/// returned beside it.
pub proof fn lemma_find_address_of_creates(seeds: Seq<Seq<u8>>, program_id: Seq<u8>, bump: u8)
    ensures
        find_address_of(seeds, program_id, bump) matches Some(p) ==> create_address_of(
            with_bump(seeds, p.1),
            program_id,
        ) == Some(p.0),
    decreases bump,
{
    if create_address_of(with_bump(seeds, bump), program_id) is None && bump > 0 {
        lemma_find_address_of_creates(seeds, program_id, (bump - 1) as u8);
    }
}

/// Law: the bump the downward search returns is the first viable one — every
/// bump above it, down from where the search started, fails the derivation.
pub proof fn lemma_find_address_of_first(seeds: Seq<Seq<u8>>, program_id: Seq<u8>, bump: u8)
    ensures
        find_address_of(seeds, program_id, bump) matches Some(p) ==> p.1 <= bump && (forall|
            c: u8,
        |
            p.1 < c <= bump ==> (#[trigger] create_address_of(
                with_bump(seeds, c),
                program_id,
            )) is None),
    decreases bump,
{
    if create_address_of(with_bump(seeds, bump), program_id) is None && bump > 0 {
        lemma_find_address_of_first(seeds, program_id, (bump - 1) as u8);
    }
}

/// Law: when the downward search fails, no bump in its range derives an
/// address at all.
pub proof fn lemma_find_address_of_none(seeds: Seq<Seq<u8>>, program_id: Seq<u8>, bump: u8)
    ensures
        find_address_of(seeds, program_id, bump) is None ==> (forall|c: u8|
            c <= bump ==> (#[trigger] create_address_of(
                with_bump(seeds, c),
                program_id,
            )) is None),
    decreases bump,
{
    if create_address_of(with_bump(seeds, bump), program_id) is None && bump > 0 {
        lemma_find_address_of_none(seeds, program_id, (bump - 1) as u8);
    }
}

/// Derive the custody address for a seed sequence: iterate the bump nonce from
/// 255 downward and return the first value for which the derivation succeeds,
/// so that the resulting address falls outside the keyed-address space.
pub fn find_address(seeds: &Vec<Vec<u8>>, program_id: &Address) -> (r: Option<(Address, u8)>)
    ensures
        (match r {
            Some(p) => find_address_of(seeds.deep_view(), program_id@, 255) == Some((p.0@, p.1)),
            None => find_address_of(seeds.deep_view(), program_id@, 255) is None,
        }),
{
    let mut bump: u8 = 255;
    loop
        invariant
            find_address_of(seeds.deep_view(), program_id@, 255) == find_address_of(
                seeds.deep_view(),
                program_id@,
                bump,
            ),
        decreases bump,
    {
        match create_address(seeds, bump, program_id) {
            Some(a) => {
                return Some((a, bump));
            },
            None => {
                if bump == 0 {
                    return None;
                }
                bump = bump - 1;
            },
        }
    }
}

/// The seed literal binding a vault record to its owner.
pub open spec fn state_seed() -> Seq<u8> {
    seq![115u8, 116u8, 97u8, 116u8, 101u8]
}

/// The seed literal binding a vault's funds address to its record.
pub open spec fn vault_seed() -> Seq<u8> {
    seq![118u8, 97u8, 117u8, 108u8, 116u8]
}

/// The seed literal binding an escrow record to its maker.
pub open spec fn escrow_seed() -> Seq<u8> {
    seq![101u8, 115u8, 99u8, 114u8, 111u8, 119u8]
}

/// The seed literal binding an escrow's funds address to its record.
pub open spec fn escrow_vault_seed() -> Seq<u8> {
    seq![101u8, 115u8, 99u8, 114u8, 111u8, 119u8, 95u8, 118u8, 97u8, 117u8, 108u8, 116u8]
}

/// The bytes of `state_seed()`, spelling "state".
pub fn state_seed_bytes() -> (r: Vec<u8>)
    ensures
        r@ == state_seed(),
{
    let mut v: Vec<u8> = Vec::new();
    v.push(115);
    v.push(116);
    v.push(97);
    v.push(116);
    v.push(101);
    proof {
        assert(v@ =~= state_seed());
    }
    v
}

/// The bytes of `vault_seed()`, spelling "vault".
pub fn vault_seed_bytes() -> (r: Vec<u8>)
    ensures
        r@ == vault_seed(),
{
    let mut v: Vec<u8> = Vec::new();
    v.push(118);
    v.push(97);
    v.push(117);
    v.push(108);
    v.push(116);
    proof {
        assert(v@ =~= vault_seed());
    }
    v
}

/// The bytes of `escrow_seed()`, spelling "escrow".
pub fn escrow_seed_bytes() -> (r: Vec<u8>)
    ensures
        r@ == escrow_seed(),
{
    let mut v: Vec<u8> = Vec::new();
    v.push(101);
    v.push(115);
    v.push(99);
    v.push(114);
    v.push(111);
    v.push(119);
    proof {
        assert(v@ =~= escrow_seed());
    }
    v
}

/// The bytes of `escrow_vault_seed()`, spelling "escrow_vault".
pub fn escrow_vault_seed_bytes() -> (r: Vec<u8>)
    ensures
        r@ == escrow_vault_seed(),
{
    let mut v: Vec<u8> = Vec::new();
    v.push(101);
    v.push(115);
    v.push(99);
    v.push(114);
    v.push(111);
    v.push(119);
    v.push(95);
    v.push(118);
    v.push(97);
    v.push(117);
    v.push(108);
    v.push(116);
    proof {
        assert(v@ =~= escrow_vault_seed());
    }
    v
}

} // verus!
