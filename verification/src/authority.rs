//! The custody authority: an identity derived from public inputs alone, which
//! only the deriving program can sign for.

use crate::identity::Identity;
use anchor_lang::prelude::Pubkey;
use vstd::prelude::*;

verus! {

/// Domain-separation seed of the custody authority: the bytes of `grant`.
pub const GRANT_PDA_SEED: [u8; 5] = [0x67, 0x72, 0x61, 0x6e, 0x74];

/// The address and bump seed that `Pubkey::try_find_program_address` finds
/// for `seeds` under the program `program_id`, if it finds any.
pub uninterp spec fn program_address(seeds: Seq<Seq<u8>>, program_id: Identity) -> Option<
    (Identity, u8),
>;

/// Calls `Pubkey::try_find_program_address` of solana-program, which hashes
/// the seeds, a bump seed and the program's address, and searches the bump
/// seeds from 255 downwards for an address off the ed25519 curve. The result
/// is a function of the seeds and the program alone; it carries the name
/// `program_address`. Nothing else is claimed of it.
#[verifier::external_body]
pub(crate) fn find_program_address(seeds: &Vec<Vec<u8>>, program_id: &Identity) -> (found: Option<
    (Identity, u8),
>)
    ensures
        found == program_address(seeds.deep_view(), *program_id),
{
    let parts: Vec<&[u8]> = seeds.iter().map(|seed| seed.as_slice()).collect();
    let program = Pubkey::new_from_array(program_id.bytes);
    match Pubkey::try_find_program_address(&parts, &program) {
        Some((address, bump)) => Some((Identity { bytes: address.to_bytes() }, bump)),
        None => None,
    }
}

/// The capability that authorizes transfers out of custody: the derived
/// identity together with the bump seed that proves the derivation.
#[derive(Clone, Copy, Debug, PartialEq, Eq)]
pub struct DelegateAuthority {
    pub identity: Identity,
    pub nonce: u8,
}

/// The seeds of the custody authority, before the bump seed.
pub open spec fn delegate_seeds() -> Seq<Seq<u8>> {
    seq![GRANT_PDA_SEED@]
}

/// The custody authority of the program `program_id`.
pub open spec fn delegate_of(program_id: Identity) -> Option<DelegateAuthority> {
    match program_address(delegate_seeds(), program_id) {
        Some((identity, nonce)) => Some(DelegateAuthority { identity, nonce }),
        None => None,
    }
}

/// The domain-separation seed as a vector of bytes.
fn grant_seed() -> (seed: Vec<u8>)
    ensures
        seed@ == GRANT_PDA_SEED@,
{
    let mut seed: Vec<u8> = Vec::new();
    let mut i: usize = 0;
    while i < 5
        invariant
            i <= 5,
            seed@ == GRANT_PDA_SEED@.subrange(0, i as int),
        decreases 5 - i,
    {
        seed.push(GRANT_PDA_SEED[i]);
        i += 1;
    }
    assert(seed@ =~= GRANT_PDA_SEED@);
    seed
}

/// Derives the custody authority of the program `program_id`.
pub fn derive_delegate(program_id: &Identity) -> (delegate: Option<DelegateAuthority>)
    ensures
        delegate == delegate_of(*program_id),
{
    let mut seeds: Vec<Vec<u8>> = Vec::new();
    seeds.push(grant_seed());
    assert(seeds.deep_view() =~= delegate_seeds()) by {
        assert(seeds@[0].deep_view() =~= seeds@[0]@);
    }
    match find_program_address(&seeds, program_id) {
        Some((identity, nonce)) => Some(DelegateAuthority { identity, nonce }),
        None => None,
    }
}

impl DelegateAuthority {
    /// The seeds that prove the authority to the gateway: the
    /// domain-separation seed, then the bump seed.
    pub open spec fn spec_signer_seeds(&self) -> Seq<Seq<u8>> {
        seq![GRANT_PDA_SEED@, seq![self.nonce]]
    }

    /// The seeds that prove the authority to the gateway.
    pub fn signer_seeds(&self) -> (seeds: Vec<Vec<u8>>)
        ensures
            seeds.deep_view() == self.spec_signer_seeds(),
    {
        let mut bump: Vec<u8> = Vec::new();
        bump.push(self.nonce);
        let mut seeds: Vec<Vec<u8>> = Vec::new();
        seeds.push(grant_seed());
        seeds.push(bump);
        assert(seeds.deep_view() =~= self.spec_signer_seeds()) by {
            assert(seeds@[0].deep_view() =~= seeds@[0]@);
            assert(seeds@[1].deep_view() =~= seeds@[1]@);
        }
        seeds
    }

    /// Whether this is the custody authority of the program `program_id`,
    /// found by deriving the authority anew.
    pub fn is_derived_for(&self, program_id: &Identity) -> (derived: bool)
        ensures
            derived == (delegate_of(*program_id) == Some(*self)),
    {
        match derive_delegate(program_id) {
            Some(delegate) => delegate.identity == self.identity && delegate.nonce == self.nonce,
            None => false,
        }
    }
}

} // verus!
