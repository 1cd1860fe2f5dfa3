use spur::account::GrantAccount;
use spur::associated_token::get_associated_token_address;
use spur::authority::{derive_delegate, DelegateAuthority};
use spur::context::{InitGrant, RevokeGrant, UnlockGrant};
use spur::error::GrantError;
use spur::gateway::{AuthorityOrder, GrantFunding, SetAuthority, Transfer, TransferOrder};
use spur::identity::Identity;
use spur::ledger::{
    init_grant, init_grant_with_delegate, revoke_grant, unlock_grant, unlock_grant_to,
};

const SENDER: Identity = Identity { bytes: [1; 32] };
const RECIPIENT: Identity = Identity { bytes: [2; 32] };
const MINT: Identity = Identity { bytes: [3; 32] };
const CUSTODY: Identity = Identity { bytes: [4; 32] };
const SENDER_TOKENS: Identity = Identity { bytes: [5; 32] };
const PROGRAM: Identity = Identity { bytes: [6; 32] };
const MARKET: Identity = Identity { bytes: [7; 32] };
const STRANGER: Identity = Identity { bytes: [8; 32] };

fn recipient_tokens() -> Identity {
    get_associated_token_address(&RECIPIENT, &MINT).unwrap()
}

fn grant(amount_total: u64, issue_ts: i64, duration_sec: u64, cliff_sec: u64, interval_sec: u64) -> GrantAccount {
    let mut ctx = InitGrant {
        grant_account: GrantAccount::new(),
        grant_token_account: CUSTODY,
        sender_wallet: SENDER,
        sender_token_account: SENDER_TOKENS,
        sender_token_balance: amount_total,
        mint: MINT,
    };
    init_grant(&mut ctx, &PROGRAM, None, amount_total, issue_ts, duration_sec, cliff_sec, interval_sec, RECIPIENT)
        .unwrap();
    ctx.grant_account
}

fn unlock_at(grant_account: &mut GrantAccount, now: i64) -> Result<TransferOrder, GrantError> {
    let mut ctx = UnlockGrant { grant_account: *grant_account, recipient_token_account: recipient_tokens(), clock: now };
    let result = unlock_grant(&mut ctx);
    *grant_account = ctx.grant_account;
    result
}

#[test]
fn blank_grant_record_is_all_zero() {
    let blank = GrantAccount::new();
    let zero = Identity::new([0; 32]);
    assert_eq!(
        blank,
        GrantAccount {
            sender_wallet: zero,
            recipient_wallet: zero,
            mint: zero,
            grant_token_account: zero,
            amount_total: 0,
            amount_unlocked: 0,
            issue_ts: 0,
            duration_sec: 0,
            initial_cliff_sec: 0,
            vest_interval_sec: 0,
            last_unlock_ts: 0,
            revoked: false,
            authority_identity: zero,
            authority_nonce: 0,
            option_market_key: None,
        }
    );
}

#[test]
fn init_grant_fills_the_record_and_orders_the_funding() {
    let mut ctx = InitGrant {
        grant_account: GrantAccount::new(),
        grant_token_account: CUSTODY,
        sender_wallet: SENDER,
        sender_token_account: SENDER_TOKENS,
        sender_token_balance: 1500,
        mint: MINT,
    };
    let funding = init_grant(&mut ctx, &PROGRAM, Some(MARKET), 1000, 50, 1000, 200, 100, RECIPIENT).unwrap();
    let delegate = derive_delegate(&PROGRAM).unwrap();
    assert_eq!(
        ctx.grant_account,
        GrantAccount {
            sender_wallet: SENDER,
            recipient_wallet: RECIPIENT,
            mint: MINT,
            grant_token_account: CUSTODY,
            amount_total: 1000,
            amount_unlocked: 0,
            issue_ts: 50,
            duration_sec: 1000,
            initial_cliff_sec: 200,
            vest_interval_sec: 100,
            last_unlock_ts: 0,
            revoked: false,
            authority_identity: delegate.identity,
            authority_nonce: delegate.nonce,
            option_market_key: Some(MARKET),
        }
    );
    assert_eq!(
        funding,
        GrantFunding {
            deposit: TransferOrder {
                accounts: Transfer { from: SENDER_TOKENS, to: CUSTODY, authority: SENDER },
                amount: 1000,
                signer: None,
            },
            custody: AuthorityOrder {
                accounts: SetAuthority { account_or_mint: CUSTODY, current_authority: SENDER },
                new_authority: delegate.identity,
            },
        }
    );
    assert_eq!(ctx.sender_token_balance, 1500);
    assert_eq!(ctx.into_transfer_context(), funding.deposit.accounts);
    assert_eq!(ctx.into_set_authority_context(), funding.custody.accounts);
}

#[test]
fn init_grant_overwrites_whatever_the_record_held() {
    let mut stale = GrantAccount::new();
    stale.amount_unlocked = 77;
    stale.last_unlock_ts = 5;
    stale.revoked = true;
    let mut ctx = InitGrant {
        grant_account: stale,
        grant_token_account: CUSTODY,
        sender_wallet: SENDER,
        sender_token_account: SENDER_TOKENS,
        sender_token_balance: 10,
        mint: MINT,
    };
    init_grant(&mut ctx, &PROGRAM, None, 10, 0, 10, 0, 1, RECIPIENT).unwrap();
    assert_eq!(ctx.grant_account.amount_unlocked, 0);
    assert_eq!(ctx.grant_account.last_unlock_ts, 0);
    assert!(!ctx.grant_account.revoked);
}

#[test]
fn init_grant_with_zero_interval_is_rejected() {
    let mut ctx = InitGrant {
        grant_account: GrantAccount::new(),
        grant_token_account: CUSTODY,
        sender_wallet: SENDER,
        sender_token_account: SENDER_TOKENS,
        sender_token_balance: 0,
        mint: MINT,
    };
    let before = ctx;
    assert_eq!(
        init_grant(&mut ctx, &PROGRAM, None, 1000, 0, 1000, 0, 0, RECIPIENT),
        Err(GrantError::ArithmeticOverflow)
    );
    assert_eq!(ctx, before);
}

#[test]
fn init_grant_beyond_the_senders_balance_is_rejected() {
    let mut ctx = InitGrant {
        grant_account: GrantAccount::new(),
        grant_token_account: CUSTODY,
        sender_wallet: SENDER,
        sender_token_account: SENDER_TOKENS,
        sender_token_balance: 999,
        mint: MINT,
    };
    let before = ctx;
    assert_eq!(
        init_grant(&mut ctx, &PROGRAM, None, 1000, 0, 1000, 0, 100, RECIPIENT),
        Err(GrantError::InsufficientFunds)
    );
    assert_eq!(ctx, before);
    ctx.sender_token_balance = 1000;
    assert!(init_grant(&mut ctx, &PROGRAM, None, 1000, 0, 1000, 0, 100, RECIPIENT).is_ok());
}

#[test]
fn init_grant_without_an_authority_is_rejected() {
    let mut ctx = InitGrant {
        grant_account: GrantAccount::new(),
        grant_token_account: CUSTODY,
        sender_wallet: SENDER,
        sender_token_account: SENDER_TOKENS,
        sender_token_balance: 1000,
        mint: MINT,
    };
    let before = ctx;
    assert_eq!(
        init_grant_with_delegate(&mut ctx, None, None, 1000, 0, 1000, 0, 100, RECIPIENT),
        Err(GrantError::DelegateUnavailable)
    );
    assert_eq!(ctx, before);
}

#[test]
fn init_grant_with_a_given_authority_uses_it() {
    let mut ctx = InitGrant {
        grant_account: GrantAccount::new(),
        grant_token_account: CUSTODY,
        sender_wallet: SENDER,
        sender_token_account: SENDER_TOKENS,
        sender_token_balance: 1000,
        mint: MINT,
    };
    let authority = DelegateAuthority { identity: STRANGER, nonce: 17 };
    let funding =
        init_grant_with_delegate(&mut ctx, Some(authority), None, 1000, 0, 1000, 0, 100, RECIPIENT).unwrap();
    assert_eq!(ctx.grant_account.authority_identity, STRANGER);
    assert_eq!(ctx.grant_account.authority_nonce, 17);
    assert_eq!(funding.custody.new_authority, STRANGER);
}

#[test]
fn first_unlock_pays_two_periods() {
    let mut g = grant(1000, 0, 1000, 0, 100);
    let delegate = derive_delegate(&PROGRAM).unwrap();
    let order = unlock_at(&mut g, 250).unwrap();
    assert_eq!(
        order,
        TransferOrder {
            accounts: Transfer { from: CUSTODY, to: recipient_tokens(), authority: delegate.identity },
            amount: 200,
            signer: Some(delegate),
        }
    );
    assert_eq!(g.amount_unlocked, 200);
    assert_eq!(g.last_unlock_ts, 250);
}

#[test]
fn second_unlock_pays_the_difference() {
    let mut g = grant(1000, 0, 1000, 0, 100);
    assert_eq!(unlock_at(&mut g, 250).unwrap().amount, 200);
    assert_eq!(unlock_at(&mut g, 550).unwrap().amount, 300);
    assert_eq!(g.amount_unlocked, 500);
    assert_eq!(g.last_unlock_ts, 550);
}

#[test]
fn unlock_at_end_of_duration_pays_the_rest() {
    let mut g = grant(1000, 0, 1000, 0, 100);
    assert_eq!(unlock_at(&mut g, 250).unwrap().amount, 200);
    assert_eq!(unlock_at(&mut g, 550).unwrap().amount, 300);
    assert_eq!(unlock_at(&mut g, 1000).unwrap().amount, 500);
    assert_eq!(g.amount_unlocked, 1000);
    assert_eq!(unlock_at(&mut g, 2000), Err(GrantError::NothingToUnlock));
    assert_eq!(g.amount_unlocked, 1000);
    assert_eq!(g.last_unlock_ts, 1000);
}

#[test]
fn full_vesting_pays_the_dust() {
    let mut g = grant(1000, 0, 300, 0, 100);
    assert_eq!(unlock_at(&mut g, 200).unwrap().amount, 666);
    assert_eq!(unlock_at(&mut g, 300).unwrap().amount, 334);
    assert_eq!(g.amount_unlocked, 1000);

    let mut untouched = grant(1000, 0, 300, 0, 100);
    assert_eq!(unlock_at(&mut untouched, 300).unwrap().amount, 1000);
    assert_eq!(untouched.amount_unlocked, 1000);
}

#[test]
fn unlock_within_the_same_period_has_nothing_to_unlock() {
    let mut g = grant(1000, 0, 1000, 0, 100);
    assert_eq!(unlock_at(&mut g, 50), Err(GrantError::NothingToUnlock));
    assert_eq!(g.last_unlock_ts, 0);
    assert_eq!(unlock_at(&mut g, 250).unwrap().amount, 200);
    let before = g;
    assert_eq!(unlock_at(&mut g, 299), Err(GrantError::NothingToUnlock));
    assert_eq!(unlock_at(&mut g, 100), Err(GrantError::NothingToUnlock));
    assert_eq!(g, before);
}

#[test]
fn unlock_before_issue_is_rejected() {
    let mut g = grant(1000, 500, 1000, 0, 100);
    let before = g;
    assert_eq!(unlock_at(&mut g, 499), Err(GrantError::ScheduleNotStarted));
    assert_eq!(g, before);
}

#[test]
fn unlock_before_the_cliff_is_rejected_and_at_the_cliff_succeeds() {
    let mut g = grant(1000, 100, 1000, 300, 100);
    let before = g;
    assert_eq!(unlock_at(&mut g, 100), Err(GrantError::CliffNotReached));
    assert_eq!(unlock_at(&mut g, 399), Err(GrantError::CliffNotReached));
    assert_eq!(g, before);
    assert_eq!(unlock_at(&mut g, 400).unwrap().amount, 300);
    assert_eq!(g.amount_unlocked, 300);
    assert_eq!(g.last_unlock_ts, 400);
}

#[test]
fn unlock_at_a_cliff_inside_the_first_period_has_nothing_to_unlock() {
    let mut g = grant(1000, 0, 1000, 50, 100);
    assert_eq!(unlock_at(&mut g, 49), Err(GrantError::CliffNotReached));
    assert_eq!(unlock_at(&mut g, 50), Err(GrantError::NothingToUnlock));
}

#[test]
fn unlock_to_another_account_is_rejected() {
    let g = grant(1000, 0, 1000, 0, 100);
    let mut ctx = UnlockGrant { grant_account: g, recipient_token_account: STRANGER, clock: 250 };
    assert_eq!(unlock_grant(&mut ctx), Err(GrantError::InvalidRecipientAccount));
    assert_eq!(ctx.grant_account, g);
    let mut to_wallet = UnlockGrant { grant_account: g, recipient_token_account: RECIPIENT, clock: 250 };
    assert_eq!(unlock_grant(&mut to_wallet), Err(GrantError::InvalidRecipientAccount));
    assert_eq!(to_wallet.grant_account, g);
}

#[test]
fn unlock_against_a_given_expected_account() {
    let g = grant(1000, 0, 1000, 0, 100);
    let mut ctx = UnlockGrant { grant_account: g, recipient_token_account: STRANGER, clock: 250 };
    assert_eq!(unlock_grant_to(&mut ctx, None), Err(GrantError::InvalidRecipientAccount));
    assert_eq!(unlock_grant_to(&mut ctx, Some(RECIPIENT)), Err(GrantError::InvalidRecipientAccount));
    assert_eq!(ctx.grant_account, g);
    let order = unlock_grant_to(&mut ctx, Some(STRANGER)).unwrap();
    assert_eq!(order.amount, 200);
    assert_eq!(order.accounts.to, STRANGER);
    assert_eq!(order.accounts, UnlockGrant { grant_account: g, recipient_token_account: STRANGER, clock: 250 }.into_transfer_context());
    assert_eq!(ctx.grant_account.amount_unlocked, 200);
    assert_eq!(ctx.recipient_token_account, STRANGER);
    assert_eq!(ctx.clock, 250);
}

#[test]
fn unlock_with_a_zero_interval_is_an_arithmetic_failure() {
    let mut g = grant(1000, 0, 1000, 0, 100);
    g.vest_interval_sec = 0;
    let before = g;
    assert_eq!(unlock_at(&mut g, 250), Err(GrantError::ArithmeticOverflow));
    assert_eq!(g, before);
}

#[test]
fn revoke_sweeps_the_whole_balance_to_the_sender() {
    let mut g = grant(1000, 0, 1000, 0, 100);
    assert_eq!(unlock_at(&mut g, 250).unwrap().amount, 200);
    let delegate = derive_delegate(&PROGRAM).unwrap();
    let mut ctx = RevokeGrant {
        sender_wallet: SENDER,
        grant_account: g,
        grant_token_balance: 800,
        sender_token_account: SENDER_TOKENS,
    };
    let order = revoke_grant(&mut ctx).unwrap();
    assert_eq!(
        order,
        TransferOrder {
            accounts: Transfer { from: CUSTODY, to: SENDER_TOKENS, authority: delegate.identity },
            amount: 800,
            signer: Some(delegate),
        }
    );
    assert_eq!(order.accounts, ctx.into_transfer_context());
    let mut expected = g;
    expected.revoked = true;
    assert_eq!(ctx.grant_account, expected);
}

#[test]
fn revoke_by_anyone_but_the_sender_is_unauthorized() {
    let g = grant(1000, 0, 1000, 0, 100);
    let mut ctx = RevokeGrant {
        sender_wallet: RECIPIENT,
        grant_account: g,
        grant_token_balance: 1000,
        sender_token_account: SENDER_TOKENS,
    };
    let before = ctx;
    assert_eq!(revoke_grant(&mut ctx), Err(GrantError::Unauthorized));
    assert_eq!(ctx, before);
}

#[test]
fn revoke_twice_is_rejected() {
    let g = grant(1000, 0, 1000, 0, 100);
    let mut ctx = RevokeGrant {
        sender_wallet: SENDER,
        grant_account: g,
        grant_token_balance: 1000,
        sender_token_account: SENDER_TOKENS,
    };
    assert_eq!(revoke_grant(&mut ctx).unwrap().amount, 1000);
    ctx.grant_token_balance = 0;
    let before = ctx;
    assert_eq!(revoke_grant(&mut ctx), Err(GrantError::AlreadyRevoked));
    assert_eq!(ctx, before);
    // The check of the signer comes first.
    ctx.sender_wallet = STRANGER;
    assert_eq!(revoke_grant(&mut ctx), Err(GrantError::Unauthorized));
}

#[test]
fn unlock_after_revoke_is_rejected() {
    let mut g = grant(1000, 0, 1000, 0, 100);
    assert_eq!(unlock_at(&mut g, 250).unwrap().amount, 200);
    let mut ctx = RevokeGrant {
        sender_wallet: SENDER,
        grant_account: g,
        grant_token_balance: 800,
        sender_token_account: SENDER_TOKENS,
    };
    revoke_grant(&mut ctx).unwrap();
    let mut revoked = ctx.grant_account;
    let before = revoked;
    assert_eq!(unlock_at(&mut revoked, 550), Err(GrantError::Revoked));
    assert_eq!(unlock_at(&mut revoked, 1000), Err(GrantError::Revoked));
    assert_eq!(unlock_at(&mut revoked, -5), Err(GrantError::Revoked));
    let mut elsewhere = UnlockGrant { grant_account: revoked, recipient_token_account: STRANGER, clock: 550 };
    assert_eq!(unlock_grant(&mut elsewhere), Err(GrantError::Revoked));
    assert_eq!(revoked, before);
    assert_eq!(revoked.amount_unlocked, 200);
}

#[test]
fn unlocked_amount_grows_up_to_the_total() {
    let mut g = grant(12345, -400, 1000, 0, 70);
    let mut last = 0u64;
    let mut paid = 0u64;
    let mut now = -450i64;
    while now <= 700 {
        match unlock_at(&mut g, now) {
            Ok(order) => {
                paid += order.amount;
                assert_eq!(g.last_unlock_ts, now);
            }
            Err(e) => assert!(e == GrantError::NothingToUnlock || e == GrantError::ScheduleNotStarted),
        }
        assert!(g.amount_unlocked >= last);
        assert!(g.amount_unlocked <= g.amount_total);
        assert_eq!(g.amount_unlocked, paid);
        last = g.amount_unlocked;
        now += 13;
    }
    assert_eq!(g.amount_unlocked, 12345);
}
