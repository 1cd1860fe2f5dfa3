//! The reasons for which an instruction is rejected.

use vstd::prelude::*;

verus! {

/// Why an instruction was rejected. A rejected instruction changes nothing.
#[derive(Clone, Copy, Debug, PartialEq, Eq, Structural)]
pub enum GrantError {
    /// The treasury record has been initialized before.
    AlreadyInitialized,
    /// The grant reference is not in the treasury's registry.
    NotFound,
    /// The caller is not the wallet that controls the record.
    Unauthorized,
    /// The grant has been revoked before.
    AlreadyRevoked,
    /// The grant is revoked and unlocks nothing any more.
    Revoked,
    /// The current time lies before the grant's issue time.
    ScheduleNotStarted,
    /// The current time lies before the end of the initial cliff.
    CliffNotReached,
    /// Everything vested so far has been unlocked already.
    NothingToUnlock,
    /// The destination is not the recipient's token account for the mint.
    InvalidRecipientAccount,
    /// The sender holds fewer tokens than the grant commits.
    InsufficientFunds,
    /// The schedule's period arithmetic is undefined: its interval is zero.
    ArithmeticOverflow,
    /// The grant reference is in the treasury's registry already.
    DuplicateGrant,
    /// The treasury's registry holds as many references as it was allocated for.
    RegistryFull,
    /// No custody authority can be derived for the program.
    DelegateUnavailable,
}

} // verus!
