//! The persisted records: the treasury with its registry of grants, and the
//! grant with its schedule and its progress.

use crate::authority::DelegateAuthority;
use crate::error::GrantError;
use crate::identity::{Identity, ZERO_BYTES};
use crate::schedule::vested;
use vstd::prelude::*;

verus! {

/// The number of grant references that a treasury record is allocated for.
pub const MAX_TREASURY_GRANTS: usize = 10;

/// A registry of grants under the control of one wallet.
#[derive(Clone, Debug, PartialEq, Eq)]
pub struct TreasuryAccount {
    pub initialized: bool,
    pub authority_wallet: Identity,
    pub bump: u8,
    pub grant_accounts: Vec<Identity>,
}

/// A treasury record as a mathematical value.
pub struct TreasuryState {
    pub initialized: bool,
    pub authority_wallet: Identity,
    pub bump: u8,
    pub grant_accounts: Seq<Identity>,
}

impl View for TreasuryAccount {
    type V = TreasuryState;

    open spec fn view(&self) -> TreasuryState {
        TreasuryState {
            initialized: self.initialized,
            authority_wallet: self.authority_wallet,
            bump: self.bump,
            grant_accounts: self.grant_accounts@,
        }
    }
}

impl TreasuryState {
    /// No reference is registered twice, and the registry fits its allocation.
    pub open spec fn wf(self) -> bool {
        &&& self.grant_accounts.no_duplicates()
        &&& self.grant_accounts.len() <= MAX_TREASURY_GRANTS
    }

    /// Whether `caller` may change the registry: the record is initialized
    /// and `caller` is its authority wallet.
    pub open spec fn authorizes(self, caller: Identity) -> bool {
        self.initialized && self.authority_wallet == caller
    }
}

impl TreasuryAccount {
    /// No reference is registered twice, and the registry fits its allocation.
    pub open spec fn wf(&self) -> bool {
        self@.wf()
    }

    /// A freshly allocated record: not initialized, with an empty registry.
    pub fn new() -> (treasury: TreasuryAccount)
        ensures
            treasury@ == (TreasuryState {
                initialized: false,
                authority_wallet: Identity { bytes: ZERO_BYTES },
                bump: 0,
                grant_accounts: Seq::empty(),
            }),
            treasury.wf(),
    {
        TreasuryAccount {
            initialized: false,
            authority_wallet: Identity { bytes: ZERO_BYTES },
            bump: 0,
            grant_accounts: Vec::new(),
        }
    }
}

/// Tokens committed by a sender to a recipient under a vesting schedule.
#[derive(Clone, Copy, Debug, PartialEq, Eq)]
pub struct GrantAccount {
    pub sender_wallet: Identity,
    pub recipient_wallet: Identity,
    pub mint: Identity,
    pub grant_token_account: Identity,
    pub amount_total: u64,
    pub amount_unlocked: u64,
    pub issue_ts: i64,
    pub duration_sec: u64,
    pub initial_cliff_sec: u64,
    pub vest_interval_sec: u64,
    pub last_unlock_ts: i64,
    pub revoked: bool,
    pub authority_identity: Identity,
    pub authority_nonce: u8,
    pub option_market_key: Option<Identity>,
}

impl GrantAccount {
    /// A freshly allocated record: every field zero, nothing granted.
    pub open spec fn blank() -> GrantAccount {
        GrantAccount {
            sender_wallet: Identity { bytes: ZERO_BYTES },
            recipient_wallet: Identity { bytes: ZERO_BYTES },
            mint: Identity { bytes: ZERO_BYTES },
            grant_token_account: Identity { bytes: ZERO_BYTES },
            amount_total: 0,
            amount_unlocked: 0,
            issue_ts: 0,
            duration_sec: 0,
            initial_cliff_sec: 0,
            vest_interval_sec: 0,
            last_unlock_ts: 0,
            revoked: false,
            authority_identity: Identity { bytes: ZERO_BYTES },
            authority_nonce: 0,
            option_market_key: None,
        }
    }

    /// A freshly allocated record, for the creation of a grant to fill.
    pub fn new() -> (grant: GrantAccount)
        ensures
            grant == GrantAccount::blank(),
    {
        GrantAccount {
            sender_wallet: Identity { bytes: ZERO_BYTES },
            recipient_wallet: Identity { bytes: ZERO_BYTES },
            mint: Identity { bytes: ZERO_BYTES },
            grant_token_account: Identity { bytes: ZERO_BYTES },
            amount_total: 0,
            amount_unlocked: 0,
            issue_ts: 0,
            duration_sec: 0,
            initial_cliff_sec: 0,
            vest_interval_sec: 0,
            last_unlock_ts: 0,
            revoked: false,
            authority_identity: Identity { bytes: ZERO_BYTES },
            authority_nonce: 0,
            option_market_key: None,
        }
    }

    /// The amount of the grant that is unlockable at `now`.
    pub open spec fn vested_at(&self, now: int) -> Result<int, GrantError> {
        vested(
            now,
            self.issue_ts as int,
            self.duration_sec as int,
            self.initial_cliff_sec as int,
            self.vest_interval_sec as int,
            self.amount_total as int,
        )
    }

    /// The capability that authorizes transfers out of the grant's custody.
    pub open spec fn delegate(&self) -> DelegateAuthority {
        DelegateAuthority { identity: self.authority_identity, nonce: self.authority_nonce }
    }

    /// The invariant of a grant record. Its interval is positive and it has
    /// unlocked no more than its total. Before the first unlock nothing is
    /// unlocked and no unlock time is recorded; after it, the unlocked amount
    /// is what the schedule gives at the recorded time.
    pub open spec fn wf(&self) -> bool {
        &&& self.vest_interval_sec > 0
        &&& self.amount_unlocked <= self.amount_total
        &&& self.amount_unlocked == 0 ==> self.last_unlock_ts == 0
        &&& self.amount_unlocked > 0 ==> self.vested_at(self.last_unlock_ts as int) == Ok::<
            int,
            GrantError,
        >(self.amount_unlocked as int)
    }

    /// Whether `other` is a later state of the same grant: parties, accounts,
    /// schedule and custody authority are the same.
    pub open spec fn same_terms(&self, other: &GrantAccount) -> bool {
        &&& self.sender_wallet == other.sender_wallet
        &&& self.recipient_wallet == other.recipient_wallet
        &&& self.mint == other.mint
        &&& self.grant_token_account == other.grant_token_account
        &&& self.amount_total == other.amount_total
        &&& self.issue_ts == other.issue_ts
        &&& self.duration_sec == other.duration_sec
        &&& self.initial_cliff_sec == other.initial_cliff_sec
        &&& self.vest_interval_sec == other.vest_interval_sec
        &&& self.authority_identity == other.authority_identity
        &&& self.authority_nonce == other.authority_nonce
        &&& self.option_market_key == other.option_market_key
    }
}

} // verus!
