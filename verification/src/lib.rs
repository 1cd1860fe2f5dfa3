//! Grant and vesting engine: a treasury registry, the lifecycle of token
//! grants, the vesting schedule, and the derived authority that holds
//! custody of granted tokens.

pub mod account;
pub mod authority;
pub mod context;
pub mod error;
pub mod gateway;
pub mod identity;
pub mod schedule;
pub mod associated_token;
pub mod ledger;
pub mod treasury;

pub use account::{GrantAccount, TreasuryAccount, MAX_TREASURY_GRANTS};
pub use context::{
    AddGrantToTreasury, InitGrant, InitTreasury, RemoveGrantFromTreasury, RevokeGrant, UnlockGrant,
};
pub use error::GrantError;
pub use identity::Identity;
pub use ledger::{init_grant, revoke_grant, unlock_grant};
pub use schedule::unlockable;
pub use treasury::{add_grant_to_treasury, init_treasury, remove_grant_from_treasury};
