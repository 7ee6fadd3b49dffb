//! Taking an offer back.

use crate::account::EscrowAccount;
use crate::auth::Caller;
use crate::auth::EscrowRef;
use crate::errors::EscrowError;
use crate::program::after_cancel;
use crate::program::EscrowProgram;
use crate::transfer::TransferOutcome;
use vstd::prelude::*;

verus! {

/// What a refund works on: the maker, and the offer the maker points at.
#[derive(Clone, Copy, Debug, PartialEq, Eq)]
pub struct Refund {
    pub maker: Caller,
    pub escrow: EscrowRef,
}

/// The maker cancels the offer and gets the deposit back, if there was one,
/// and the offer is closed.
pub fn refund(program: &mut EscrowProgram, ctx: &Refund, moved: TransferOutcome) -> (r: Result<
    EscrowAccount,
    EscrowError,
>)
    requires
        old(program).wf(),
    ensures
        final(program).wf(),
        final(program).id() == old(program).id(),
        match after_cancel(old(program)@, ctx.maker, ctx.escrow, moved) {
            Ok((closed, next)) => r == Ok::<EscrowAccount, EscrowError>(closed) && final(program)@
                == next,
            Err(e) => r == Err::<EscrowAccount, EscrowError>(e) && final(program)@ == old(program)@,
        },
        old(program).anchored() ==> final(program).anchored(),
{
    program.cancel(&ctx.maker, &ctx.escrow, moved)
}

} // verus!
