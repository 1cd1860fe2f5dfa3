//! The accounts and readings that each instruction works on.

use crate::account::{GrantAccount, TreasuryAccount};
use crate::gateway::{SetAuthority, Transfer};
use crate::identity::Identity;
use vstd::prelude::*;

verus! {

/// Initialization of a treasury: the record, and the wallet that signs and
/// becomes its authority.
#[derive(Clone, Debug, PartialEq, Eq)]
pub struct InitTreasury {
    pub treasury_account: TreasuryAccount,
    pub authority_wallet: Identity,
}

/// Registration of a grant: the treasury, and the wallet that signs.
#[derive(Clone, Debug, PartialEq, Eq)]
pub struct AddGrantToTreasury {
    pub treasury_account: TreasuryAccount,
    pub authority_wallet: Identity,
}

/// Removal of a grant from the registry: the treasury, and the wallet that
/// signs.
#[derive(Clone, Debug, PartialEq, Eq)]
pub struct RemoveGrantFromTreasury {
    pub treasury_account: TreasuryAccount,
    pub authority_wallet: Identity,
}

/// Creation of a grant: the record to fill, the custody account, the sender
/// who signs, the sender's token account with its balance, and the mint.
#[derive(Clone, Copy, Debug, PartialEq, Eq)]
pub struct InitGrant {
    pub grant_account: GrantAccount,
    pub grant_token_account: Identity,
    pub sender_wallet: Identity,
    pub sender_token_account: Identity,
    pub sender_token_balance: u64,
    pub mint: Identity,
}

/// Revocation of a grant: the wallet that signs, the grant, the current
/// balance of its custody account, and the token account that takes the
/// balance back.
#[derive(Clone, Copy, Debug, PartialEq, Eq)]
pub struct RevokeGrant {
    pub sender_wallet: Identity,
    pub grant_account: GrantAccount,
    pub grant_token_balance: u64,
    pub sender_token_account: Identity,
}

/// An unlock: the grant, the token account that is to be paid, and the
/// current time of the ledger's clock.
#[derive(Clone, Copy, Debug, PartialEq, Eq)]
pub struct UnlockGrant {
    pub grant_account: GrantAccount,
    pub recipient_token_account: Identity,
    pub clock: i64,
}

impl InitGrant {
    /// The deposit goes from the sender's token account into custody, on the
    /// sender's own authority.
    pub fn into_transfer_context(&self) -> (accounts: Transfer)
        ensures
            accounts.from == self.sender_token_account,
            accounts.to == self.grant_token_account,
            accounts.authority == self.sender_wallet,
    {
        Transfer {
            from: self.sender_token_account,
            to: self.grant_token_account,
            authority: self.sender_wallet,
        }
    }

    /// The custody account is handed over by the sender, its owner so far.
    pub fn into_set_authority_context(&self) -> (accounts: SetAuthority)
        ensures
            accounts.account_or_mint == self.grant_token_account,
            accounts.current_authority == self.sender_wallet,
    {
        SetAuthority {
            account_or_mint: self.grant_token_account,
            current_authority: self.sender_wallet,
        }
    }
}

impl RevokeGrant {
    /// The sweep goes from the grant's custody account back to the sender's
    /// token account, on the custody authority.
    pub fn into_transfer_context(&self) -> (accounts: Transfer)
        ensures
            accounts.from == self.grant_account.grant_token_account,
            accounts.to == self.sender_token_account,
            accounts.authority == self.grant_account.authority_identity,
    {
        Transfer {
            from: self.grant_account.grant_token_account,
            to: self.sender_token_account,
            authority: self.grant_account.authority_identity,
        }
    }
}

impl UnlockGrant {
    /// The payout goes from the grant's custody account to the recipient's
    /// token account, on the custody authority.
    pub fn into_transfer_context(&self) -> (accounts: Transfer)
        ensures
            accounts.from == self.grant_account.grant_token_account,
            accounts.to == self.recipient_token_account,
            accounts.authority == self.grant_account.authority_identity,
    {
        Transfer {
            from: self.grant_account.grant_token_account,
            to: self.recipient_token_account,
            authority: self.grant_account.authority_identity,
        }
    }
}

} // verus!
