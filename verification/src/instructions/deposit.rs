//! Paying into a custody vault.

use crate::address::Address;
use crate::auth::authorize;
use crate::auth::signed_by;
use crate::auth::Caller;
use crate::errors::EscrowError;
use crate::state::vault::VaultCustody;
use crate::transfer::Transfer;
use crate::transfer::TransferOutcome;
use vstd::prelude::*;

verus! {

/// What a deposit works on: the user who pays, the vault, the place the
/// request names as the vault's, and the asset that is paid in.
#[derive(Clone, Copy, Debug, PartialEq, Eq)]
pub struct DepositVault {
    pub user: Caller,
    pub user_vault: VaultCustody,
    pub user_vault_lamports: Address,
    pub asset: Address,
}

/// A deposit: the move it needs, or why it is refused. The amount must be
/// positive, the user must have signed and own the vault, the request must
/// name the vault's own place, and the vault must be able to take the asset
/// and the amount.
pub open spec fn deposit_vault_check(ctx: DepositVault, amount: u64) -> Result<Transfer, EscrowError> {
    if amount == 0 {
        Err(EscrowError::InvalidAmount)
    } else if !signed_by(ctx.user, ctx.user_vault.owner) {
        Err(EscrowError::Unauthorized)
    } else if ctx.user_vault.address != ctx.user_vault_lamports {
        Err(EscrowError::InvalidAccount)
    } else if ctx.user_vault.deposit_refusal(amount, ctx.asset) is Some {
        Err(ctx.user_vault.deposit_refusal(amount, ctx.asset)->0)
    } else {
        Ok(Transfer { from: ctx.user.key, to: ctx.user_vault.address, asset: ctx.asset, amount })
    }
}

/// What a deposit leaves behind, or why everything stays as it is.
pub open spec fn after_deposit_vault(ctx: DepositVault, amount: u64, moved: TransferOutcome) -> Result<
    DepositVault,
    EscrowError,
> {
    match deposit_vault_check(ctx, amount) {
        Err(e) => Err(e),
        Ok(_) => if moved == TransferOutcome::Completed {
            Ok(DepositVault { user_vault: ctx.user_vault.with_deposit(amount), ..ctx })
        } else {
            Err(EscrowError::TransferFailure)
        },
    }
}

/// Checks a deposit and names the move the host has to make for it: the
/// amount from the user to the vault. Nothing changes.
pub fn deposit_vault_order(ctx: &DepositVault, amount: u64) -> (r: Result<Transfer, EscrowError>)
    ensures
        r == deposit_vault_check(*ctx, amount),
{
    if amount == 0 {
        return Err(EscrowError::InvalidAmount);
    }
    authorize(&ctx.user, &ctx.user_vault.owner)?;
    if ctx.user_vault.address != ctx.user_vault_lamports {
        return Err(EscrowError::InvalidAccount);
    }
    let mut vault = ctx.user_vault;
    match vault.deposit(amount, ctx.asset) {
        Err(e) => Err(e),
        Ok(()) => Ok(
            Transfer { from: ctx.user.key, to: ctx.user_vault.address, asset: ctx.asset, amount },
        ),
    }
}

/// A deposit, once the host has tried the move that `deposit_vault_order`
/// names. With the request in order and the move made, the vault holds
/// `amount` more. Otherwise nothing changes.
pub fn deposit_vault(ctx: &mut DepositVault, amount: u64, moved: TransferOutcome) -> (r: Result<
    (),
    EscrowError,
>)
    ensures
        match after_deposit_vault(*old(ctx), amount, moved) {
            Ok(next) => r == Ok::<(), EscrowError>(()) && *final(ctx) == next,
            Err(e) => r == Err::<(), EscrowError>(e) && *final(ctx) == *old(ctx),
        },
{
    deposit_vault_order(ctx, amount)?;
    if moved == TransferOutcome::Failed {
        return Err(EscrowError::TransferFailure);
    }
    let mut vault = ctx.user_vault;
    vault.deposit(amount, ctx.asset)?;
    ctx.user_vault = vault;
    Ok(())
}

} // verus!
