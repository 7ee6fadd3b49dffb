//! Taking an offer.

use crate::account::EscrowAccount;
use crate::auth::Caller;
use crate::auth::EscrowRef;
use crate::auth::Tender;
use crate::errors::EscrowError;
use crate::program::after_settle;
use crate::program::EscrowProgram;
use crate::transfer::TransferOutcome;
use vstd::prelude::*;

verus! {

/// What taking an offer works on: the taker, the offer the taker points at,
/// and what the taker pays.
#[derive(Clone, Copy, Debug, PartialEq, Eq)]
pub struct Taker {
    pub taker: Caller,
    pub escrow: EscrowRef,
    pub tender: Tender,
}

/// The taker pays what the maker wanted and is handed the deposit, in one
/// step, and the offer is closed.
pub fn taker(program: &mut EscrowProgram, ctx: &Taker, moved: TransferOutcome) -> (r: Result<
    EscrowAccount,
    EscrowError,
>)
    requires
        old(program).wf(),
    ensures
        final(program).wf(),
        final(program).id() == old(program).id(),
        match after_settle(old(program)@, ctx.taker, ctx.escrow, ctx.tender, moved) {
            Ok((closed, next)) => r == Ok::<EscrowAccount, EscrowError>(closed) && final(program)@
                == next,
            Err(e) => r == Err::<EscrowAccount, EscrowError>(e) && final(program)@ == old(program)@,
        },
        old(program).anchored() ==> final(program).anchored(),
{
    program.taker_deposit_and_settle(&ctx.taker, &ctx.escrow, &ctx.tender, moved)
}

} // verus!
