//! Opening an offer and paying the deposit in, in one step.

use crate::account::EscrowAccount;
use crate::address::locate;
use crate::address::Address;
use crate::address::Role;
use crate::auth::authorize_signer;
use crate::auth::Caller;
use crate::auth::Tender;
use crate::errors::EscrowError;
use crate::program::after_create;
use crate::program::EscrowProgram;
use crate::transfer::Transfer;
use crate::transfer::TransferOutcome;
use vstd::prelude::*;

verus! {

/// What opening an offer works on: the maker, the asset the maker gives
/// (`mint_m`) and the asset the maker wants (`mint_n`).
#[derive(Clone, Copy, Debug, PartialEq, Eq)]
pub struct Maker {
    pub maker: Caller,
    pub mint_m: Address,
    pub mint_n: Address,
}

/// Opening and funding an offer: the move the deposit needs, or why the
/// offer is not opened.
pub open spec fn maker_check(
    program: Address,
    book: Map<Address, EscrowAccount>,
    ctx: Maker,
    seed: u64,
    token_mint_n_expected: u64,
    amount: u64,
) -> Result<Transfer, EscrowError> {
    match after_create(
        program,
        book,
        ctx.maker,
        seed,
        ctx.mint_m,
        amount,
        ctx.mint_n,
        token_mint_n_expected,
    ) {
        Err(e) => Err(e),
        Ok((id, opened)) => Ok(opened[id].deposit_move()),
    }
}

/// The offer's location and the book with the funded offer in it, or why the
/// book stays as it is.
pub open spec fn after_maker(
    program: Address,
    book: Map<Address, EscrowAccount>,
    ctx: Maker,
    seed: u64,
    token_mint_n_expected: u64,
    amount: u64,
    moved: TransferOutcome,
) -> Result<(Address, Map<Address, EscrowAccount>), EscrowError> {
    match after_create(
        program,
        book,
        ctx.maker,
        seed,
        ctx.mint_m,
        amount,
        ctx.mint_n,
        token_mint_n_expected,
    ) {
        Err(e) => Err(e),
        Ok((id, opened)) => if moved == TransferOutcome::Completed {
            Ok((id, opened.insert(id, opened[id].funded())))
        } else {
            Err(EscrowError::TransferFailure)
        },
    }
}

/// Checks a request to open and fund an offer, and names the move the host
/// has to make for it: the deposit from the maker to the offer's vault.
/// Nothing changes.
pub fn maker_order(
    program: &EscrowProgram,
    ctx: &Maker,
    seed: u64,
    token_mint_n_expected: u64,
    amount: u64,
) -> (r: Result<Transfer, EscrowError>)
    requires
        program.wf(),
    ensures
        r == maker_check(program.id(), program@, *ctx, seed, token_mint_n_expected, amount),
{
    authorize_signer(&ctx.maker)?;
    let program_id = program.program_id();
    let record_at = locate(&program_id, Role::Record, &ctx.maker.key, seed);
    let vault_at = locate(&program_id, Role::Vault, &ctx.maker.key, seed);
    let (id, vault) = match (record_at, vault_at) {
        (Some(id), Some(vault)) => (id, vault),
        _ => {
            return Err(EscrowError::InvalidAccount);
        },
    };
    if program.get(&id).is_some() {
        return Err(EscrowError::DuplicateEscrow);
    }
    if amount == 0 || token_mint_n_expected == 0 {
        return Err(EscrowError::InvalidAmount);
    }
    Ok(Transfer { from: ctx.maker.key, to: vault, asset: ctx.mint_m, amount })
}

/// The maker opens an offer of `amount` of `mint_m` for
/// `token_mint_n_expected` of `mint_n` and pays the deposit in, once the
/// host has tried the move that `maker_order` names. With the request in
/// order and the move made, the offer stands funded at the location handed
/// back. Otherwise nothing changes: an offer whose deposit could not be
/// moved is not opened.
pub fn maker(
    program: &mut EscrowProgram,
    ctx: &Maker,
    seed: u64,
    token_mint_n_expected: u64,
    amount: u64,
    moved: TransferOutcome,
) -> (r: Result<Address, EscrowError>)
    requires
        old(program).wf(),
    ensures
        final(program).wf(),
        final(program).id() == old(program).id(),
        match after_maker(
            old(program).id(),
            old(program)@,
            *ctx,
            seed,
            token_mint_n_expected,
            amount,
            moved,
        ) {
            Ok((id, next)) => r == Ok::<Address, EscrowError>(id) && final(program)@ == next,
            Err(e) => r == Err::<Address, EscrowError>(e) && final(program)@ == old(program)@,
        },
        old(program).anchored() ==> final(program).anchored(),
{
    let id = match program.create(
        &ctx.maker,
        seed,
        ctx.mint_m,
        amount,
        ctx.mint_n,
        token_mint_n_expected,
    ) {
        Err(e) => {
            return Err(e);
        },
        Ok(id) => id,
    };
    let opened = match program.get(&id) {
        Some(opened) => opened,
        // The offer was opened a moment ago, so it is there.
        None => {
            return Err(EscrowError::InvalidAccount);
        },
    };
    let target = opened.reference_of();
    let tender = Tender { asset: ctx.mint_m, amount };
    match program.maker_deposit(&ctx.maker, &target, &tender, moved) {
        Ok(()) => Ok(id),
        Err(e) => {
            program.cancel(&ctx.maker, &target, moved)?;
            assert(program@ =~= old(program)@);
            Err(e)
        },
    }
}

} // verus!
