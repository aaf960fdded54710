//! What holds of the operations taken together.

use vstd::prelude::*;
use crate::resolver::{derived_view, signer_seeds, vault_address};
use crate::vault::{deposit_outcome, withdraw_outcome, Transfer, VaultAction, VaultError};

verus! {

/// Whether a vault's balance is one that it may hold: nothing at all, or more
/// than the rent-exempt minimum.
pub open spec fn empty_or_funded(ctx: VaultAction, rent_minimum: u64) -> bool {
    ctx.vault.lamports == 0 || ctx.vault.lamports > rent_minimum
}

/// Resolving an owner's vault twice gives the same address and the same bump.
pub proof fn resolution_is_deterministic(
    owner: [u8; 32],
    program_id: [u8; 32],
    first: Option<([u8; 32], u8)>,
    second: Option<([u8; 32], u8)>,
)
    requires
        derived_view(first) == vault_address(owner@, program_id@),
        derived_view(second) == vault_address(owner@, program_id@),
    ensures
        first == second,
{
    match (first, second) {
        (Some((a, _)), Some((b, _))) => {
            assert(a@ == b@);
            assert(a =~= b);
        },
        _ => {},
    }
}

/// Once a deposit has been carried out, every further deposit is refused with
/// `VaultAlreadyExists`, whatever its amount and whatever the minimum.
pub proof fn second_deposit_is_refused(
    ctx: VaultAction,
    amount: u64,
    rent_minimum: u64,
    next_amount: u64,
    next_minimum: u64,
)
    requires
        deposit_outcome(ctx, amount, rent_minimum) is Ok,
        ctx.admits(deposit_outcome(ctx, amount, rent_minimum)->Ok_0),
    ensures
        deposit_outcome(
            ctx.settled(deposit_outcome(ctx, amount, rent_minimum)->Ok_0),
            next_amount,
            next_minimum,
        ) == Err::<Transfer, VaultError>(VaultError::VaultAlreadyExists),
{
}

/// A deposit that does not exceed the minimum is refused: with
/// `InvalidAmount` where the vault is empty, and with `VaultAlreadyExists`
/// where it is not.
pub proof fn deposit_up_to_minimum_is_refused(ctx: VaultAction, amount: u64, rent_minimum: u64)
    requires
        amount <= rent_minimum,
    ensures
        deposit_outcome(ctx, amount, rent_minimum) is Err,
        ctx.vault.lamports == 0 ==> deposit_outcome(ctx, amount, rent_minimum)->Err_0
            == VaultError::InvalidAmount,
        ctx.vault.lamports != 0 ==> deposit_outcome(ctx, amount, rent_minimum)->Err_0
            == VaultError::VaultAlreadyExists,
{
}

/// A deposit of one unit more than the minimum into an empty vault is
/// accepted, and once the host has carried it out the vault holds exactly
/// that amount.
pub proof fn deposit_just_above_minimum_is_accepted(ctx: VaultAction, rent_minimum: u64)
    requires
        ctx.vault.lamports == 0,
        rent_minimum < u64::MAX,
    ensures
        deposit_outcome(ctx, (rent_minimum + 1) as u64, rent_minimum) is Ok,
        ({
            let t = deposit_outcome(ctx, (rent_minimum + 1) as u64, rent_minimum)->Ok_0;
            &&& t.lamports == rent_minimum + 1
            &&& ctx.admits(t) <==> ctx.signer.lamports > rent_minimum
            &&& ctx.admits(t) ==> ctx.settled(t).vault.lamports == rent_minimum + 1
        }),
{
}

/// A withdrawal from an empty vault is refused with `InvalidAmount`, and from
/// no other vault.
pub proof fn withdraw_needs_a_balance(ctx: VaultAction)
    ensures
        ctx.vault.lamports == 0 <==> withdraw_outcome(ctx) == Err::<
            Transfer,
            VaultError,
        >(VaultError::InvalidAmount),
        ctx.vault.lamports != 0 <==> withdraw_outcome(ctx) is Ok,
{
}

/// A deposit followed by a withdrawal gives the signer back exactly what was
/// deposited and leaves the vault empty: the accounts are as they were before
/// the deposit, so the same deposit is accepted again.
pub proof fn deposit_then_withdraw_restores(ctx: VaultAction, amount: u64, rent_minimum: u64)
    requires
        deposit_outcome(ctx, amount, rent_minimum) is Ok,
        ctx.admits(deposit_outcome(ctx, amount, rent_minimum)->Ok_0),
    ensures
        ({
            let paid = deposit_outcome(ctx, amount, rent_minimum)->Ok_0;
            let funded = ctx.settled(paid);
            let back = withdraw_outcome(funded)->Ok_0;
            let drained = funded.settled(back);
            &&& funded.vault.lamports == amount
            &&& funded.signer.lamports == ctx.signer.lamports - amount
            &&& withdraw_outcome(funded) is Ok
            &&& back.lamports == amount
            &&& funded.admits(back)
            &&& drained.vault.lamports == 0
            &&& drained.signer.lamports == ctx.signer.lamports
            &&& drained == ctx
            &&& deposit_outcome(drained, amount, rent_minimum) == deposit_outcome(
                ctx,
                amount,
                rent_minimum,
            )
        }),
{
}

/// A withdrawal from a resolved vault is vouched for with the seeds that the
/// vault's address was derived from, followed by the bump that the derivation
/// found. The host carries it out unless the signer's balance has no room for
/// the vault's.
pub proof fn withdrawal_carries_the_resolved_seeds(ctx: VaultAction, program_id: Seq<u8>)
    requires
        ctx.resolved_under(program_id),
        withdraw_outcome(ctx) is Ok,
    ensures
        ({
            let t = withdraw_outcome(ctx)->Ok_0;
            &&& t.authority.seeds() == signer_seeds(ctx.signer.key@, ctx.bump)
            &&& vault_address(ctx.signer.key@, program_id) == Some((t.from@, ctx.bump))
            &&& ctx.admits(t) <==> ctx.signer.lamports + ctx.vault.lamports <= u64::MAX
        }),
{
}

/// A transfer that the host carries out moves balance between the signer and
/// the vault and neither makes nor loses any.
pub proof fn settling_conserves_the_total(ctx: VaultAction, t: Transfer)
    requires
        ctx.admits(t),
    ensures
        ctx.settled(t).signer.lamports + ctx.settled(t).vault.lamports == ctx.signer.lamports
            + ctx.vault.lamports,
        ctx.settled(t).signer.key == ctx.signer.key,
        ctx.settled(t).vault.key == ctx.vault.key,
        ctx.settled(t).bump == ctx.bump,
{
}

/// A vault never holds a balance between one unit and the minimum: if its
/// balance is nothing or more than the minimum, it is so again after any
/// deposit or withdrawal that was decided and carried out.
pub proof fn vault_stays_empty_or_funded(ctx: VaultAction, amount: u64, rent_minimum: u64)
    requires
        empty_or_funded(ctx, rent_minimum),
    ensures
        deposit_outcome(ctx, amount, rent_minimum) matches Ok(t) ==> (ctx.admits(t)
            ==> empty_or_funded(ctx.settled(t), rent_minimum)),
        withdraw_outcome(ctx) matches Ok(t) ==> (ctx.admits(t) ==> ctx.settled(t).vault.lamports
            == 0),
{
}

} // verus!
