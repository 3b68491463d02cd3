//! The guarded release operation: check the scholar agent's identity against
//! the registered authority, then move the amount from the vault to the
//! researcher.
//!
//! The whole operation is check-then-act with no internal state: either the
//! guard rejects before anything changes, or the transfer applies in full.
//! `next_state` and `outcome` are the specification of one call; the
//! lemmas below state the guarantees a caller can rely on.

use vstd::prelude::*;

use crate::identity::PublicKey;

verus! {

/// An account on the ledger, reduced to what this crate reads and writes:
/// its balance in the base value unit.
#[derive(Clone, Copy, Debug, PartialEq, Eq, Structural)]
pub struct Account {
    pub balance: u64,
}

/// Why a release call was rejected. A failed call leaves every balance
/// unchanged.
#[derive(Clone, Copy, Debug, PartialEq, Eq, Structural)]
pub enum ReleaseError {
    /// The scholar agent's identity differs from the authority that signed
    /// the call.
    Unauthorized,
    /// The vault holds less than the requested amount.
    InsufficientFunds,
    /// The transfer primitive cannot apply the movement: the researcher's
    /// balance would exceed the largest representable balance.
    TransferFailure,
}

/// The accounts and identities one release call operates on.
#[derive(Clone, Copy, Debug)]
pub struct ReleaseGrant {
    /// Custodial account the funds leave.
    pub vault: Account,
    /// Destination account the funds reach.
    pub researcher: Account,
    /// The identity that signed the call, already verified by the hosting
    /// runtime.
    pub authority: PublicKey,
    /// The identity claiming the right to trigger the release.
    pub scholar_agent: PublicKey,
}

/// The sole authorization rule: the scholar agent must be the registered
/// authority.
pub open spec fn authorized(ctx: ReleaseGrant) -> bool {
    ctx.scholar_agent@ == ctx.authority@
}

/// The vault can cover the requested amount.
pub open spec fn sufficient_funds(ctx: ReleaseGrant, amount: u64) -> bool {
    amount <= ctx.vault.balance
}

/// The researcher's balance can absorb the amount without exceeding the
/// largest representable balance.
pub open spec fn recipient_fits(ctx: ReleaseGrant, amount: u64) -> bool {
    ctx.researcher.balance + amount <= u64::MAX
}

/// The state after one release call: balances move exactly when the guard
/// and the transfer both pass, and nothing changes otherwise.
pub open spec fn next_state(ctx: ReleaseGrant, amount: u64) -> ReleaseGrant {
    if authorized(ctx) && sufficient_funds(ctx, amount) && recipient_fits(ctx, amount) {
        ReleaseGrant {
            vault: Account { balance: (ctx.vault.balance - amount) as u64 },
            researcher: Account { balance: (ctx.researcher.balance + amount) as u64 },
            ..ctx
        }
    } else {
        ctx
    }
}

/// The result of one release call.
pub open spec fn outcome(ctx: ReleaseGrant, amount: u64) -> Result<(), ReleaseError> {
    if !authorized(ctx) {
        Err(ReleaseError::Unauthorized)
    } else if !sufficient_funds(ctx, amount) {
        Err(ReleaseError::InsufficientFunds)
    } else if !recipient_fits(ctx, amount) {
        Err(ReleaseError::TransferFailure)
    } else {
        Ok(())
    }
}

/// The transfer primitive: move `amount` from `vault` to `researcher`
/// atomically, or fail without touching either balance.
pub fn transfer(vault: &mut Account, researcher: &mut Account, amount: u64) -> (r: Result<
    (),
    ReleaseError,
>)
    ensures
        r == Ok::<(), ReleaseError>(()) <==> amount <= old(vault).balance
            && old(researcher).balance + amount <= u64::MAX,
        r is Ok ==> final(vault).balance == old(vault).balance - amount,
        r is Ok ==> final(researcher).balance == old(researcher).balance + amount,
        r is Err ==> *final(vault) == *old(vault) && *final(researcher) == *old(researcher),
        amount > old(vault).balance
            ==> r == Err::<(), ReleaseError>(ReleaseError::InsufficientFunds),
        amount <= old(vault).balance && old(researcher).balance + amount > u64::MAX
            ==> r == Err::<(), ReleaseError>(ReleaseError::TransferFailure),
{
    if amount > vault.balance {
        return Err(ReleaseError::InsufficientFunds);
    }
    match researcher.balance.checked_add(amount) {
        Some(credited) => {
            vault.balance = vault.balance - amount;
            researcher.balance = credited;
            Ok(())
        },
        None => Err(ReleaseError::TransferFailure),
    }
}

/// Release `amount` from the vault to the researcher, provided the scholar
/// agent is the registered authority.
///
/// The verification hash is an opaque artifact produced upstream; it is
/// carried for the call's audit trail and never interpreted here.
pub fn release_grant(ctx: &mut ReleaseGrant, amount: u64, _verification_hash: String) -> (r: Result<
    (),
    ReleaseError,
>)
    ensures
        *final(ctx) == next_state(*old(ctx), amount),
        r == outcome(*old(ctx), amount),
        r is Err ==> *final(ctx) == *old(ctx),
        r is Ok ==> final(ctx).vault.balance + final(ctx).researcher.balance
            == old(ctx).vault.balance + old(ctx).researcher.balance,
{
    if !ctx.scholar_agent.equals(&ctx.authority) {
        return Err(ReleaseError::Unauthorized);
    }
    transfer(&mut ctx.vault, &mut ctx.researcher, amount)
}

/// Authorization enforcement: a call whose scholar agent is not the
/// authority fails with `Unauthorized` and changes no balance.
pub proof fn lemma_unauthorized_rejected(ctx: ReleaseGrant, amount: u64)
    requires
        !authorized(ctx),
    ensures
        outcome(ctx, amount) == Err::<(), ReleaseError>(ReleaseError::Unauthorized),
        next_state(ctx, amount) == ctx,
{
}

/// Authorized success: when the scholar agent is the authority, the vault
/// covers the amount and the researcher's balance can absorb it, the call
/// succeeds and moves exactly `amount` from vault to researcher.
pub proof fn lemma_authorized_success(ctx: ReleaseGrant, amount: u64)
    requires
        authorized(ctx),
        amount <= ctx.vault.balance,
        ctx.researcher.balance + amount <= u64::MAX,
    ensures
        outcome(ctx, amount) == Ok::<(), ReleaseError>(()),
        next_state(ctx, amount).vault.balance == ctx.vault.balance - amount,
        next_state(ctx, amount).researcher.balance == ctx.researcher.balance + amount,
{
}

/// Conservation: a successful call neither creates nor destroys value; the
/// two balances keep their sum.
pub proof fn lemma_conservation(ctx: ReleaseGrant, amount: u64)
    requires
        outcome(ctx, amount) == Ok::<(), ReleaseError>(()),
    ensures
        next_state(ctx, amount).vault.balance + next_state(ctx, amount).researcher.balance
            == ctx.vault.balance + ctx.researcher.balance,
{
}

/// Insufficient funds: a call for more than the vault holds fails and
/// changes no balance; with correct authorization the error is
/// `InsufficientFunds`.
pub proof fn lemma_insufficient_funds(ctx: ReleaseGrant, amount: u64)
    requires
        amount > ctx.vault.balance,
    ensures
        outcome(ctx, amount) is Err,
        next_state(ctx, amount) == ctx,
        authorized(ctx) ==> outcome(ctx, amount) == Err::<(), ReleaseError>(
            ReleaseError::InsufficientFunds,
        ),
{
}

/// The state after `n` release calls of the same amount on the same
/// accounts and identities.
pub open spec fn repeat_release(ctx: ReleaseGrant, amount: u64, n: nat) -> ReleaseGrant
    decreases n,
{
    if n == 0 {
        ctx
    } else {
        next_state(repeat_release(ctx, amount, (n - 1) as nat), amount)
    }
}

/// Idempotence of rejection: repeating an unauthorized call any number of
/// times never mutates the accounts.
pub proof fn lemma_rejection_idempotent(ctx: ReleaseGrant, amount: u64, n: nat)
    requires
        !authorized(ctx),
    ensures
        repeat_release(ctx, amount, n) == ctx,
    decreases n,
{
    if n > 0 {
        lemma_rejection_idempotent(ctx, amount, (n - 1) as nat);
    }
}

} // verus!
