//! The token account that a wallet holds for a mint by convention: an address
//! derived from the wallet, the token program and the mint, under the
//! associated token program.

use crate::authority::{find_program_address, program_address};
use crate::identity::Identity;
use vstd::prelude::*;

verus! {

/// The address of the token program.
pub const TOKEN_PROGRAM_ID: [u8; 32] = [
    6, 221, 246, 225, 215, 101, 161, 147, 217, 203, 225, 70, 206, 235, 121, 172,
    28, 180, 133, 237, 95, 91, 55, 145, 58, 140, 245, 133, 126, 255, 0, 169,
];

/// The address of the associated token program.
pub const ASSOCIATED_TOKEN_PROGRAM_ID: [u8; 32] = [
    140, 151, 37, 143, 78, 36, 137, 241, 187, 61, 16, 41, 20, 142, 13, 131,
    11, 90, 19, 153, 218, 255, 16, 132, 4, 142, 123, 216, 219, 233, 248, 89,
];

/// The seeds of the token account of `wallet` for `mint`.
pub open spec fn associated_token_seeds(wallet: Identity, mint: Identity) -> Seq<Seq<u8>> {
    seq![wallet.bytes@, TOKEN_PROGRAM_ID@, mint.bytes@]
}

/// The token account of `wallet` for `mint`, if one can be derived.
pub open spec fn associated_token_address(wallet: Identity, mint: Identity) -> Option<Identity> {
    match program_address(
        associated_token_seeds(wallet, mint),
        Identity { bytes: ASSOCIATED_TOKEN_PROGRAM_ID },
    ) {
        Some((address, _)) => Some(address),
        None => None,
    }
}

/// Derives the token account of `wallet` for `mint`.
pub fn get_associated_token_address(wallet: &Identity, mint: &Identity) -> (address: Option<
    Identity,
>)
    ensures
        address == associated_token_address(*wallet, *mint),
{
    let token_program = Identity { bytes: TOKEN_PROGRAM_ID };
    let associated_token_program = Identity { bytes: ASSOCIATED_TOKEN_PROGRAM_ID };
    let mut seeds: Vec<Vec<u8>> = Vec::new();
    seeds.push(wallet.to_vec());
    seeds.push(token_program.to_vec());
    seeds.push(mint.to_vec());
    assert(seeds.deep_view() =~= associated_token_seeds(*wallet, *mint)) by {
        assert(seeds@[0].deep_view() =~= seeds@[0]@);
        assert(seeds@[1].deep_view() =~= seeds@[1]@);
        assert(seeds@[2].deep_view() =~= seeds@[2]@);
    }
    match find_program_address(&seeds, &associated_token_program) {
        Some((address, _)) => Some(address),
        None => None,
    }
}

} // verus!
