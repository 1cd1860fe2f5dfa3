//! The registry of a treasury: initialization, and registration and removal
//! of grant references by the treasury's authority wallet.

use crate::account::{TreasuryState, MAX_TREASURY_GRANTS};
use crate::context::{AddGrantToTreasury, InitTreasury, RemoveGrantFromTreasury};
use crate::error::GrantError;
use crate::identity::Identity;
use vstd::prelude::*;

verus! {

/// What the initialization of `treasury` by `authority_wallet` yields: the
/// record afterwards, or the reason for the rejection.
pub open spec fn init_treasury_outcome(
    treasury: TreasuryState,
    authority_wallet: Identity,
    bump: u8,
) -> Result<TreasuryState, GrantError> {
    if treasury.initialized {
        Err(GrantError::AlreadyInitialized)
    } else {
        Ok(
            TreasuryState {
                initialized: true,
                authority_wallet,
                bump,
                grant_accounts: Seq::empty(),
            },
        )
    }
}

/// What the registration of `grant_account` by `caller` yields: the record
/// afterwards, with the reference appended, or the reason for the rejection.
pub open spec fn add_grant_outcome(
    treasury: TreasuryState,
    caller: Identity,
    grant_account: Identity,
) -> Result<TreasuryState, GrantError> {
    if !treasury.authorizes(caller) {
        Err(GrantError::Unauthorized)
    } else if treasury.grant_accounts.contains(grant_account) {
        Err(GrantError::DuplicateGrant)
    } else if treasury.grant_accounts.len() >= MAX_TREASURY_GRANTS {
        Err(GrantError::RegistryFull)
    } else {
        Ok(TreasuryState { grant_accounts: treasury.grant_accounts.push(grant_account), ..treasury })
    }
}

/// What the removal of `grant_account` by `caller` yields: the record
/// afterwards, without the first entry that equals the reference and with
/// the others in their order, or the reason for the rejection.
pub open spec fn remove_grant_outcome(
    treasury: TreasuryState,
    caller: Identity,
    grant_account: Identity,
) -> Result<TreasuryState, GrantError> {
    if !treasury.authorizes(caller) {
        Err(GrantError::Unauthorized)
    } else if !treasury.grant_accounts.contains(grant_account) {
        Err(GrantError::NotFound)
    } else {
        Ok(
            TreasuryState {
                grant_accounts: treasury.grant_accounts.remove_value(grant_account),
                ..treasury
            },
        )
    }
}

/// The index of the first entry of `grants` that equals `grant_account`.
fn position(grants: &Vec<Identity>, grant_account: &Identity) -> (found: Option<usize>)
    ensures
        match found {
            Some(index) => {
                &&& index < grants.len()
                &&& grants@[index as int] == *grant_account
                &&& forall|j: int| 0 <= j < index ==> grants@[j] != *grant_account
            },
            None => !grants@.contains(*grant_account),
        },
{
    let mut index: usize = 0;
    while index < grants.len()
        invariant
            index <= grants.len(),
            forall|j: int| 0 <= j < index ==> grants@[j] != *grant_account,
        decreases grants.len() - index,
    {
        if grants[index] == *grant_account {
            return Some(index);
        }
        index += 1;
    }
    None
}

/// Removing a value removes the entry at the first index that holds it.
pub proof fn lemma_remove_value_at_first(grants: Seq<Identity>, grant_account: Identity, index: int)
    requires
        0 <= index < grants.len(),
        grants[index] == grant_account,
        forall|j: int| 0 <= j < index ==> grants[j] != grant_account,
    ensures
        grants.contains(grant_account),
        grants.remove_value(grant_account) == grants.remove(index),
{
    grants.index_of_first_ensures(grant_account);
    assert(grants.contains(grant_account));
    let first = grants.index_of_first(grant_account)->Some_0;
    if first < index {
        assert(grants[first] != grant_account);
    }
}

/// Initializes a treasury record for the wallet that signs.
///
/// A record that is initialized already is rejected with
/// `AlreadyInitialized`. Otherwise the wallet becomes the authority of the
/// record, and its registry starts empty.
pub fn init_treasury(ctx: &mut InitTreasury, bump: u8) -> (r: Result<(), GrantError>)
    ensures
        match init_treasury_outcome(old(ctx).treasury_account@, old(ctx).authority_wallet, bump) {
            Ok(treasury) => {
                &&& r is Ok
                &&& final(ctx).treasury_account@ == treasury
            },
            Err(e) => {
                &&& r == Err::<(), GrantError>(e)
                &&& final(ctx).treasury_account == old(ctx).treasury_account
            },
        },
        final(ctx).authority_wallet == old(ctx).authority_wallet,
        r is Ok ==> final(ctx).treasury_account.wf(),
{
    if ctx.treasury_account.initialized {
        return Err(GrantError::AlreadyInitialized);
    }
    ctx.treasury_account.initialized = true;
    ctx.treasury_account.authority_wallet = ctx.authority_wallet;
    ctx.treasury_account.bump = bump;
    ctx.treasury_account.grant_accounts = Vec::new();
    Ok(())
}

/// Registers a grant with the treasury.
///
/// Only the authority wallet of an initialized treasury may register: any
/// other signer is rejected with `Unauthorized`. A reference that is
/// registered already is rejected with `DuplicateGrant`, and a reference
/// beyond the registry's allocation with `RegistryFull`. Otherwise the
/// reference is appended.
pub fn add_grant_to_treasury(ctx: &mut AddGrantToTreasury, grant_account: Identity) -> (r: Result<
    (),
    GrantError,
>)
    ensures
        match add_grant_outcome(
            old(ctx).treasury_account@,
            old(ctx).authority_wallet,
            grant_account,
        ) {
            Ok(treasury) => {
                &&& r is Ok
                &&& final(ctx).treasury_account@ == treasury
            },
            Err(e) => {
                &&& r == Err::<(), GrantError>(e)
                &&& final(ctx).treasury_account == old(ctx).treasury_account
            },
        },
        final(ctx).authority_wallet == old(ctx).authority_wallet,
        old(ctx).treasury_account.wf() ==> final(ctx).treasury_account.wf(),
{
    if !ctx.treasury_account.initialized || ctx.treasury_account.authority_wallet
        != ctx.authority_wallet {
        return Err(GrantError::Unauthorized);
    }
    if position(&ctx.treasury_account.grant_accounts, &grant_account).is_some() {
        return Err(GrantError::DuplicateGrant);
    }
    if ctx.treasury_account.grant_accounts.len() >= MAX_TREASURY_GRANTS {
        return Err(GrantError::RegistryFull);
    }
    ctx.treasury_account.grant_accounts.push(grant_account);
    Ok(())
}

/// Removes a grant from the treasury's registry.
///
/// Only the authority wallet of an initialized treasury may remove: any
/// other signer is rejected with `Unauthorized`. A reference that is not
/// registered is rejected with `NotFound`. Otherwise its first entry is
/// removed and the remaining entries keep their order.
pub fn remove_grant_from_treasury(
    ctx: &mut RemoveGrantFromTreasury,
    grant_account: Identity,
) -> (r: Result<(), GrantError>)
    ensures
        match remove_grant_outcome(
            old(ctx).treasury_account@,
            old(ctx).authority_wallet,
            grant_account,
        ) {
            Ok(treasury) => {
                &&& r is Ok
                &&& final(ctx).treasury_account@ == treasury
            },
            Err(e) => {
                &&& r == Err::<(), GrantError>(e)
                &&& final(ctx).treasury_account == old(ctx).treasury_account
            },
        },
        final(ctx).authority_wallet == old(ctx).authority_wallet,
        old(ctx).treasury_account.wf() ==> final(ctx).treasury_account.wf(),
{
    if !ctx.treasury_account.initialized || ctx.treasury_account.authority_wallet
        != ctx.authority_wallet {
        return Err(GrantError::Unauthorized);
    }
    let index = match position(&ctx.treasury_account.grant_accounts, &grant_account) {
        Some(index) => index,
        None => {
            return Err(GrantError::NotFound);
        },
    };
    proof {
        lemma_remove_value_at_first(ctx.treasury_account.grant_accounts@, grant_account, index as int);
    }
    ctx.treasury_account.grant_accounts.remove(index);
    Ok(())
}

/// A second initialization of a treasury record fails with
/// `AlreadyInitialized`, whoever asks for it.
pub proof fn lemma_init_treasury_once(
    treasury: TreasuryState,
    authority_wallet: Identity,
    bump: u8,
    other_wallet: Identity,
    other_bump: u8,
)
    requires
        init_treasury_outcome(treasury, authority_wallet, bump) is Ok,
    ensures
        init_treasury_outcome(
            init_treasury_outcome(treasury, authority_wallet, bump)->Ok_0,
            other_wallet,
            other_bump,
        ) == Err::<TreasuryState, GrantError>(GrantError::AlreadyInitialized),
{
}

/// Registering a reference and removing it again leaves the treasury as it
/// was before.
pub proof fn lemma_add_then_remove(treasury: TreasuryState, caller: Identity, grant_account: Identity)
    requires
        add_grant_outcome(treasury, caller, grant_account) is Ok,
    ensures
        remove_grant_outcome(
            add_grant_outcome(treasury, caller, grant_account)->Ok_0,
            caller,
            grant_account,
        ) == Ok::<TreasuryState, GrantError>(treasury),
{
    let grants = treasury.grant_accounts;
    let added = grants.push(grant_account);
    assert forall|j: int| 0 <= j < grants.len() implies added[j] != grant_account by {
        assert(grants[j] == added[j]);
    }
    lemma_remove_value_at_first(added, grant_account, grants.len() as int);
    assert(added.remove(grants.len() as int) =~= grants);
}

/// Removing a reference that is not registered fails with `NotFound` and
/// registering one that is fails with `DuplicateGrant`, for the caller who
/// is authorized.
pub proof fn lemma_membership_decides(
    treasury: TreasuryState,
    caller: Identity,
    grant_account: Identity,
)
    requires
        treasury.authorizes(caller),
    ensures
        !treasury.grant_accounts.contains(grant_account) ==> remove_grant_outcome(
            treasury,
            caller,
            grant_account,
        ) == Err::<TreasuryState, GrantError>(GrantError::NotFound),
        treasury.grant_accounts.contains(grant_account) ==> add_grant_outcome(
            treasury,
            caller,
            grant_account,
        ) == Err::<TreasuryState, GrantError>(GrantError::DuplicateGrant),
{
}

/// Registration and removal keep the registry free of duplicates and within
/// its allocation.
pub proof fn lemma_registry_invariant_kept(
    treasury: TreasuryState,
    caller: Identity,
    grant_account: Identity,
)
    requires
        treasury.wf(),
    ensures
        add_grant_outcome(treasury, caller, grant_account) matches Ok(next) ==> next.wf(),
        remove_grant_outcome(treasury, caller, grant_account) matches Ok(next) ==> next.wf()
            && !next.grant_accounts.contains(grant_account),
{
    let grants = treasury.grant_accounts;
    if add_grant_outcome(treasury, caller, grant_account) is Ok {
        let added = grants.push(grant_account);
        assert forall|i: int, j: int|
            0 <= i < added.len() && 0 <= j < added.len() && i != j implies added[i] != added[j] by {
            if i < grants.len() && j < grants.len() {
                assert(grants[i] != grants[j]);
            } else if i < grants.len() {
                assert(grants[i] != grant_account);
            } else {
                assert(grants[j] != grant_account);
            }
        }
    }
    if remove_grant_outcome(treasury, caller, grant_account) is Ok {
        grants.index_of_first_ensures(grant_account);
        let index = grants.index_of_first(grant_account)->Some_0;
        let removed = grants.remove(index);
        assert forall|i: int| 0 <= i < removed.len() implies removed[i] == grants[if i < index {
            i
        } else {
            i + 1
        }] by {}
        assert forall|i: int, j: int|
            0 <= i < removed.len() && 0 <= j < removed.len() && i != j implies removed[i]
            != removed[j] by {
            let a = if i < index { i } else { i + 1 };
            let b = if j < index { j } else { j + 1 };
            assert(grants[a] != grants[b]);
        }
        assert forall|i: int| 0 <= i < removed.len() implies removed[i] != grant_account by {
            let a = if i < index { i } else { i + 1 };
            assert(grants[a] != grants[index]);
        }
    }
}

} // verus!
