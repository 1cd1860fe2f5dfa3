//! Orders for the token transfer gateway. The engine decides what moves and
//! who authorizes it; the gateway moves the tokens.

use crate::authority::DelegateAuthority;
use crate::identity::Identity;
use vstd::prelude::*;

verus! {

/// The accounts of a token transfer.
#[derive(Clone, Copy, Debug, PartialEq, Eq)]
pub struct Transfer {
    pub from: Identity,
    pub to: Identity,
    pub authority: Identity,
}

/// The accounts of a change of a token account's owner.
#[derive(Clone, Copy, Debug, PartialEq, Eq)]
pub struct SetAuthority {
    pub account_or_mint: Identity,
    pub current_authority: Identity,
}

/// A transfer of `amount` tokens. Where the authority is the custody
/// authority, `signer` holds the capability that proves it; where a wallet
/// signs for itself, `signer` is `None`.
#[derive(Clone, Copy, Debug, PartialEq, Eq)]
pub struct TransferOrder {
    pub accounts: Transfer,
    pub amount: u64,
    pub signer: Option<DelegateAuthority>,
}

/// The hand-over of a token account to `new_authority` as its owner.
#[derive(Clone, Copy, Debug, PartialEq, Eq)]
pub struct AuthorityOrder {
    pub accounts: SetAuthority,
    pub new_authority: Identity,
}

/// What the creation of a grant asks of the gateway: first the deposit into
/// custody, then the hand-over of the custody account.
#[derive(Clone, Copy, Debug, PartialEq, Eq)]
pub struct GrantFunding {
    pub deposit: TransferOrder,
    pub custody: AuthorityOrder,
}

} // verus!
