//! The lifecycle of a grant: creation, unlock and revocation. Each
//! instruction checks everything before it changes anything, so a rejected
//! instruction leaves its accounts as they were.

use crate::account::GrantAccount;
use crate::associated_token::{associated_token_address, get_associated_token_address};
use crate::authority::{delegate_of, derive_delegate, DelegateAuthority};
use crate::context::{InitGrant, RevokeGrant, UnlockGrant};
use crate::error::GrantError;
use crate::gateway::{AuthorityOrder, GrantFunding, SetAuthority, Transfer, TransferOrder};
use crate::identity::Identity;
use crate::schedule::{lemma_vested_bounded, lemma_vested_monotonic, unlockable};
use vstd::prelude::*;

verus! {

/// What an unlock at `now` does to `grant` when `recipient_token_account` is
/// to be paid and `expected` is the recipient's token account for the mint:
/// the grant afterwards and the payout, or the reason for the rejection.
pub open spec fn unlock_outcome(
    grant: GrantAccount,
    recipient_token_account: Identity,
    now: i64,
    expected: Option<Identity>,
) -> Result<(GrantAccount, TransferOrder), GrantError> {
    if grant.revoked {
        Err(GrantError::Revoked)
    } else if expected != Some(recipient_token_account) {
        Err(GrantError::InvalidRecipientAccount)
    } else {
        match grant.vested_at(now as int) {
            Err(e) => Err(e),
            Ok(amount) => if amount <= grant.amount_unlocked {
                Err(GrantError::NothingToUnlock)
            } else {
                Ok(
                    (
                        GrantAccount {
                            amount_unlocked: amount as u64,
                            last_unlock_ts: now,
                            ..grant
                        },
                        TransferOrder {
                            accounts: Transfer {
                                from: grant.grant_token_account,
                                to: recipient_token_account,
                                authority: grant.authority_identity,
                            },
                            amount: (amount - grant.amount_unlocked) as u64,
                            signer: Some(grant.delegate()),
                        },
                    ),
                )
            },
        }
    }
}

/// What a revocation signed by `signer` does to `grant` when its custody
/// account holds `custody_balance`: the grant afterwards and the sweep of the
/// whole balance to `sender_token_account`, or the reason for the rejection.
pub open spec fn revoke_outcome(
    grant: GrantAccount,
    signer: Identity,
    custody_balance: u64,
    sender_token_account: Identity,
) -> Result<(GrantAccount, TransferOrder), GrantError> {
    if signer != grant.sender_wallet {
        Err(GrantError::Unauthorized)
    } else if grant.revoked {
        Err(GrantError::AlreadyRevoked)
    } else {
        Ok(
            (
                GrantAccount { revoked: true, ..grant },
                TransferOrder {
                    accounts: Transfer {
                        from: grant.grant_token_account,
                        to: sender_token_account,
                        authority: grant.authority_identity,
                    },
                    amount: custody_balance,
                    signer: Some(grant.delegate()),
                },
            ),
        )
    }
}

/// What the creation of a grant yields when `delegate` is the custody
/// authority of the program: the new record with the deposit and the
/// hand-over of custody, or the reason for the rejection.
pub open spec fn init_grant_outcome(
    accounts: InitGrant,
    delegate: Option<DelegateAuthority>,
    option_market_key: Option<Identity>,
    amount_total: u64,
    issue_ts: i64,
    duration_sec: u64,
    initial_cliff_sec: u64,
    vest_interval_sec: u64,
    recipient_wallet: Identity,
) -> Result<(GrantAccount, GrantFunding), GrantError> {
    if vest_interval_sec == 0 {
        Err(GrantError::ArithmeticOverflow)
    } else if accounts.sender_token_balance < amount_total {
        Err(GrantError::InsufficientFunds)
    } else {
        match delegate {
            None => Err(GrantError::DelegateUnavailable),
            Some(authority) => Ok(
                (
                    GrantAccount {
                        sender_wallet: accounts.sender_wallet,
                        recipient_wallet,
                        mint: accounts.mint,
                        grant_token_account: accounts.grant_token_account,
                        amount_total,
                        amount_unlocked: 0,
                        issue_ts,
                        duration_sec,
                        initial_cliff_sec,
                        vest_interval_sec,
                        last_unlock_ts: 0,
                        revoked: false,
                        authority_identity: authority.identity,
                        authority_nonce: authority.nonce,
                        option_market_key,
                    },
                    GrantFunding {
                        deposit: TransferOrder {
                            accounts: Transfer {
                                from: accounts.sender_token_account,
                                to: accounts.grant_token_account,
                                authority: accounts.sender_wallet,
                            },
                            amount: amount_total,
                            signer: None,
                        },
                        custody: AuthorityOrder {
                            accounts: SetAuthority {
                                account_or_mint: accounts.grant_token_account,
                                current_authority: accounts.sender_wallet,
                            },
                            new_authority: authority.identity,
                        },
                    },
                ),
            ),
        }
    }
}

/// Unlocks what has vested since the last unlock, given the token account
/// `expected` that the recipient holds for the grant's mint.
///
/// Rejects a revoked grant with `Revoked`, a destination other than
/// `expected` with `InvalidRecipientAccount`, a time at which the schedule
/// gives nothing with the schedule's own reason, and an amount that is
/// unlocked already with `NothingToUnlock`. Otherwise records the new
/// unlocked amount and the time, and orders the payout of the difference.
pub fn unlock_grant_to(ctx: &mut UnlockGrant, expected: Option<Identity>) -> (r: Result<
    TransferOrder,
    GrantError,
>)
    ensures
        match unlock_outcome(
            old(ctx).grant_account,
            old(ctx).recipient_token_account,
            old(ctx).clock,
            expected,
        ) {
            Ok((grant, order)) => {
                &&& r == Ok::<TransferOrder, GrantError>(order)
                &&& *final(ctx) == (UnlockGrant { grant_account: grant, ..*old(ctx) })
            },
            Err(e) => {
                &&& r == Err::<TransferOrder, GrantError>(e)
                &&& *final(ctx) == *old(ctx)
            },
        },
        old(ctx).grant_account.amount_unlocked <= final(ctx).grant_account.amount_unlocked,
        r is Ok ==> final(ctx).grant_account.amount_unlocked
            <= final(ctx).grant_account.amount_total,
        old(ctx).grant_account.wf() ==> final(ctx).grant_account.wf(),
{
    let grant = ctx.grant_account;
    if grant.revoked {
        return Err(GrantError::Revoked);
    }
    let destination_expected = match expected {
        Some(account) => account == ctx.recipient_token_account,
        None => false,
    };
    if !destination_expected {
        return Err(GrantError::InvalidRecipientAccount);
    }
    let amount = match unlockable(
        ctx.clock,
        grant.issue_ts,
        grant.duration_sec,
        grant.initial_cliff_sec,
        grant.vest_interval_sec,
        grant.amount_total,
    ) {
        Ok(amount) => amount,
        Err(e) => {
            return Err(e);
        },
    };
    if amount <= grant.amount_unlocked {
        return Err(GrantError::NothingToUnlock);
    }
    let delta = amount - grant.amount_unlocked;
    let accounts = ctx.into_transfer_context();
    ctx.grant_account.amount_unlocked = grant.amount_unlocked + delta;
    ctx.grant_account.last_unlock_ts = ctx.clock;
    Ok(
        TransferOrder {
            accounts,
            amount: delta,
            signer: Some(
                DelegateAuthority { identity: grant.authority_identity, nonce: grant.authority_nonce },
            ),
        },
    )
}

/// Unlocks what has vested since the last unlock and orders its payout to
/// the recipient's token account for the grant's mint.
pub fn unlock_grant(ctx: &mut UnlockGrant) -> (r: Result<TransferOrder, GrantError>)
    ensures
        match unlock_outcome(
            old(ctx).grant_account,
            old(ctx).recipient_token_account,
            old(ctx).clock,
            associated_token_address(
                old(ctx).grant_account.recipient_wallet,
                old(ctx).grant_account.mint,
            ),
        ) {
            Ok((grant, order)) => {
                &&& r == Ok::<TransferOrder, GrantError>(order)
                &&& *final(ctx) == (UnlockGrant { grant_account: grant, ..*old(ctx) })
            },
            Err(e) => {
                &&& r == Err::<TransferOrder, GrantError>(e)
                &&& *final(ctx) == *old(ctx)
            },
        },
        old(ctx).grant_account.amount_unlocked <= final(ctx).grant_account.amount_unlocked,
        r is Ok ==> final(ctx).grant_account.amount_unlocked
            <= final(ctx).grant_account.amount_total,
        old(ctx).grant_account.wf() ==> final(ctx).grant_account.wf(),
{
    let expected = get_associated_token_address(
        &ctx.grant_account.recipient_wallet,
        &ctx.grant_account.mint,
    );
    unlock_grant_to(ctx, expected)
}

/// Revokes a grant and orders the sweep of its custody account.
///
/// Only the grant's sender may revoke: any other signer is rejected with
/// `Unauthorized`. A grant that is revoked already is rejected with
/// `AlreadyRevoked`. Otherwise the grant is marked revoked and the whole
/// current balance of its custody account, vested or not, goes back to the
/// sender's token account on the custody authority.
pub fn revoke_grant(ctx: &mut RevokeGrant) -> (r: Result<TransferOrder, GrantError>)
    ensures
        match revoke_outcome(
            old(ctx).grant_account,
            old(ctx).sender_wallet,
            old(ctx).grant_token_balance,
            old(ctx).sender_token_account,
        ) {
            Ok((grant, order)) => {
                &&& r == Ok::<TransferOrder, GrantError>(order)
                &&& *final(ctx) == (RevokeGrant { grant_account: grant, ..*old(ctx) })
            },
            Err(e) => {
                &&& r == Err::<TransferOrder, GrantError>(e)
                &&& *final(ctx) == *old(ctx)
            },
        },
        old(ctx).grant_account.amount_unlocked == final(ctx).grant_account.amount_unlocked,
        old(ctx).grant_account.wf() ==> final(ctx).grant_account.wf(),
{
    let grant = ctx.grant_account;
    if ctx.sender_wallet != grant.sender_wallet {
        return Err(GrantError::Unauthorized);
    }
    if grant.revoked {
        return Err(GrantError::AlreadyRevoked);
    }
    let accounts = ctx.into_transfer_context();
    ctx.grant_account.revoked = true;
    Ok(
        TransferOrder {
            accounts,
            amount: ctx.grant_token_balance,
            signer: Some(
                DelegateAuthority { identity: grant.authority_identity, nonce: grant.authority_nonce },
            ),
        },
    )
}

/// Creates a grant whose custody goes to the authority `delegate`.
///
/// Rejects a zero interval with `ArithmeticOverflow`, a sender balance below
/// `amount_total` with `InsufficientFunds`, and a missing authority with
/// `DelegateUnavailable`. Otherwise fills the grant record, with nothing
/// unlocked and not revoked, and orders the deposit of `amount_total` into
/// custody and the hand-over of the custody account to the authority.
pub fn init_grant_with_delegate(
    ctx: &mut InitGrant,
    delegate: Option<DelegateAuthority>,
    option_market_key: Option<Identity>,
    amount_total: u64,
    issue_ts: i64,
    duration_sec: u64,
    initial_cliff_sec: u64,
    vest_interval_sec: u64,
    recipient_wallet: Identity,
) -> (r: Result<GrantFunding, GrantError>)
    ensures
        match init_grant_outcome(
            *old(ctx),
            delegate,
            option_market_key,
            amount_total,
            issue_ts,
            duration_sec,
            initial_cliff_sec,
            vest_interval_sec,
            recipient_wallet,
        ) {
            Ok((grant, funding)) => {
                &&& r == Ok::<GrantFunding, GrantError>(funding)
                &&& *final(ctx) == (InitGrant { grant_account: grant, ..*old(ctx) })
            },
            Err(e) => {
                &&& r == Err::<GrantFunding, GrantError>(e)
                &&& *final(ctx) == *old(ctx)
            },
        },
        r is Ok ==> final(ctx).grant_account.wf(),
{
    if vest_interval_sec == 0 {
        return Err(GrantError::ArithmeticOverflow);
    }
    if ctx.sender_token_balance < amount_total {
        return Err(GrantError::InsufficientFunds);
    }
    let authority = match delegate {
        Some(authority) => authority,
        None => {
            return Err(GrantError::DelegateUnavailable);
        },
    };
    let deposit = TransferOrder {
        accounts: ctx.into_transfer_context(),
        amount: amount_total,
        signer: None,
    };
    let custody = AuthorityOrder {
        accounts: ctx.into_set_authority_context(),
        new_authority: authority.identity,
    };
    ctx.grant_account = GrantAccount {
        sender_wallet: ctx.sender_wallet,
        recipient_wallet,
        mint: ctx.mint,
        grant_token_account: ctx.grant_token_account,
        amount_total,
        amount_unlocked: 0,
        issue_ts,
        duration_sec,
        initial_cliff_sec,
        vest_interval_sec,
        last_unlock_ts: 0,
        revoked: false,
        authority_identity: authority.identity,
        authority_nonce: authority.nonce,
        option_market_key,
    };
    Ok(GrantFunding { deposit, custody })
}

/// Creates a grant under the program `program_id`: derives the program's
/// custody authority and hands the custody account over to it.
pub fn init_grant(
    ctx: &mut InitGrant,
    program_id: &Identity,
    option_market_key: Option<Identity>,
    amount_total: u64,
    issue_ts: i64,
    duration_sec: u64,
    initial_cliff_sec: u64,
    vest_interval_sec: u64,
    recipient_wallet: Identity,
) -> (r: Result<GrantFunding, GrantError>)
    ensures
        match init_grant_outcome(
            *old(ctx),
            delegate_of(*program_id),
            option_market_key,
            amount_total,
            issue_ts,
            duration_sec,
            initial_cliff_sec,
            vest_interval_sec,
            recipient_wallet,
        ) {
            Ok((grant, funding)) => {
                &&& r == Ok::<GrantFunding, GrantError>(funding)
                &&& *final(ctx) == (InitGrant { grant_account: grant, ..*old(ctx) })
            },
            Err(e) => {
                &&& r == Err::<GrantFunding, GrantError>(e)
                &&& *final(ctx) == *old(ctx)
            },
        },
        r is Ok ==> final(ctx).grant_account.wf(),
{
    let delegate = derive_delegate(program_id);
    init_grant_with_delegate(
        ctx,
        delegate,
        option_market_key,
        amount_total,
        issue_ts,
        duration_sec,
        initial_cliff_sec,
        vest_interval_sec,
        recipient_wallet,
    )
}

/// The unlocked amount of a grant only grows, and never beyond the grant's
/// total: a successful unlock raises it by exactly the amount it pays out
/// and changes nothing else but the unlock time.
pub proof fn lemma_unlock_grows_within_total(
    grant: GrantAccount,
    recipient_token_account: Identity,
    now: i64,
    expected: Option<Identity>,
)
    ensures
        unlock_outcome(grant, recipient_token_account, now, expected) matches Ok((next, order))
            ==> {
            &&& grant.amount_unlocked < next.amount_unlocked <= next.amount_total
            &&& order.amount == next.amount_unlocked - grant.amount_unlocked
            &&& next.last_unlock_ts == now
            &&& next.revoked == grant.revoked
            &&& grant.same_terms(&next)
        },
{
    lemma_vested_bounded(
        now as int,
        grant.issue_ts as int,
        grant.duration_sec as int,
        grant.initial_cliff_sec as int,
        grant.vest_interval_sec as int,
        grant.amount_total as int,
    );
}

/// A revocation changes nothing of a grant but its revoked flag.
pub proof fn lemma_revoke_keeps_amounts(
    grant: GrantAccount,
    signer: Identity,
    custody_balance: u64,
    sender_token_account: Identity,
)
    ensures
        revoke_outcome(grant, signer, custody_balance, sender_token_account) matches Ok(
            (next, order),
        ) ==> {
            &&& next.revoked
            &&& next.amount_unlocked == grant.amount_unlocked
            &&& next.last_unlock_ts == grant.last_unlock_ts
            &&& grant.same_terms(&next)
            &&& order.amount == custody_balance
        },
{
}

/// A new grant meets the invariant of a grant record.
pub proof fn lemma_new_grant_well_formed(
    accounts: InitGrant,
    delegate: Option<DelegateAuthority>,
    option_market_key: Option<Identity>,
    amount_total: u64,
    issue_ts: i64,
    duration_sec: u64,
    initial_cliff_sec: u64,
    vest_interval_sec: u64,
    recipient_wallet: Identity,
)
    ensures
        init_grant_outcome(
            accounts,
            delegate,
            option_market_key,
            amount_total,
            issue_ts,
            duration_sec,
            initial_cliff_sec,
            vest_interval_sec,
            recipient_wallet,
        ) matches Ok((grant, funding)) ==> {
            &&& grant.wf()
            &&& grant.amount_unlocked == 0
            &&& !grant.revoked
            &&& funding.deposit.amount == amount_total
            &&& funding.custody.new_authority == grant.authority_identity
        },
{
}

/// Every unlock keeps the invariant of a grant record.
pub proof fn lemma_unlock_keeps_invariant(
    grant: GrantAccount,
    recipient_token_account: Identity,
    now: i64,
    expected: Option<Identity>,
)
    requires
        grant.wf(),
    ensures
        unlock_outcome(grant, recipient_token_account, now, expected) matches Ok((next, _))
            ==> next.wf(),
{
    lemma_vested_bounded(
        now as int,
        grant.issue_ts as int,
        grant.duration_sec as int,
        grant.initial_cliff_sec as int,
        grant.vest_interval_sec as int,
        grant.amount_total as int,
    );
}

/// Every revocation keeps the invariant of a grant record.
pub proof fn lemma_revoke_keeps_invariant(
    grant: GrantAccount,
    signer: Identity,
    custody_balance: u64,
    sender_token_account: Identity,
)
    requires
        grant.wf(),
    ensures
        revoke_outcome(grant, signer, custody_balance, sender_token_account) matches Ok(
            (next, _),
        ) ==> next.wf(),
{
}

/// After a successful revocation every unlock fails with `Revoked`, whatever
/// the time and the destination, and the grant cannot be revoked again.
pub proof fn lemma_revoked_unlocks_nothing(
    grant: GrantAccount,
    signer: Identity,
    custody_balance: u64,
    sender_token_account: Identity,
    recipient_token_account: Identity,
    now: i64,
    expected: Option<Identity>,
    later_balance: u64,
)
    requires
        revoke_outcome(grant, signer, custody_balance, sender_token_account) is Ok,
    ensures
        unlock_outcome(
            revoke_outcome(grant, signer, custody_balance, sender_token_account)->Ok_0.0,
            recipient_token_account,
            now,
            expected,
        ) == Err::<(GrantAccount, TransferOrder), GrantError>(GrantError::Revoked),
        revoke_outcome(
            revoke_outcome(grant, signer, custody_balance, sender_token_account)->Ok_0.0,
            signer,
            later_balance,
            sender_token_account,
        ) == Err::<(GrantAccount, TransferOrder), GrantError>(GrantError::AlreadyRevoked),
{
}

/// From the issue time to the end of the cliff an unlock fails with
/// `CliffNotReached`. At the very end of the cliff the schedule answers with
/// an amount, and the unlock succeeds wherever that amount is more than what
/// is unlocked already.
pub proof fn lemma_unlock_at_cliff(
    grant: GrantAccount,
    recipient_token_account: Identity,
    now: i64,
    expected: Option<Identity>,
)
    requires
        !grant.revoked,
        expected == Some(recipient_token_account),
        grant.initial_cliff_sec > 0,
        grant.vest_interval_sec > 0,
        grant.issue_ts <= now,
    ensures
        now < grant.issue_ts + grant.initial_cliff_sec ==> unlock_outcome(
            grant,
            recipient_token_account,
            now,
            expected,
        ) == Err::<(GrantAccount, TransferOrder), GrantError>(GrantError::CliffNotReached),
        now == grant.issue_ts + grant.initial_cliff_sec ==> grant.vested_at(now as int) is Ok,
        now == grant.issue_ts + grant.initial_cliff_sec && grant.vested_at(now as int)->Ok_0
            > grant.amount_unlocked ==> unlock_outcome(
            grant,
            recipient_token_account,
            now,
            expected,
        ) is Ok,
{
}

/// Once the duration has passed, an unlock pays exactly what of the total is
/// not unlocked yet, whatever the division into periods leaves over.
pub proof fn lemma_unlock_in_full(
    grant: GrantAccount,
    recipient_token_account: Identity,
    now: i64,
    expected: Option<Identity>,
)
    requires
        !grant.revoked,
        expected == Some(recipient_token_account),
        grant.issue_ts + grant.duration_sec <= now,
        grant.issue_ts + grant.initial_cliff_sec <= now,
        grant.amount_unlocked < grant.amount_total,
    ensures
        unlock_outcome(grant, recipient_token_account, now, expected) matches Ok((next, order))
            && order.amount == grant.amount_total - grant.amount_unlocked && next.amount_unlocked
            == grant.amount_total,
{
}

/// After the first unlock, the unlock time only moves forward: a later
/// successful unlock happens at a strictly later time.
pub proof fn lemma_unlock_time_advances(
    grant: GrantAccount,
    recipient_token_account: Identity,
    now: i64,
    expected: Option<Identity>,
)
    requires
        grant.wf(),
        grant.amount_unlocked > 0,
        unlock_outcome(grant, recipient_token_account, now, expected) is Ok,
    ensures
        grant.last_unlock_ts < now,
{
    if now <= grant.last_unlock_ts {
        lemma_vested_monotonic(
            now as int,
            grant.last_unlock_ts as int,
            grant.issue_ts as int,
            grant.duration_sec as int,
            grant.initial_cliff_sec as int,
            grant.vest_interval_sec as int,
            grant.amount_total as int,
        );
    }
}

} // verus!
