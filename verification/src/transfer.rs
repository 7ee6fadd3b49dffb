//! Moves of assets. The library never moves anything itself: it names the
//! moves a transition needs, and the host reports whether they were made.

use crate::address::Address;
use vstd::prelude::*;

verus! {

/// One move for the host to make: `amount` of `asset` from one holder to
/// another, all of it or none.
#[derive(Clone, Copy, Debug, PartialEq, Eq)]
pub struct Transfer {
    pub from: Address,
    pub to: Address,
    pub asset: Address,
    pub amount: u64,
}

/// The host's report on the moves of one transition, taken together: either
/// every one of them was made, or none was.
#[derive(Clone, Copy, Debug, PartialEq, Eq, Structural)]
pub enum TransferOutcome {
    Completed,
    Failed,
}

/// Who holds how much of what, as far as the moves named here change it.
/// A holder that the ledger does not list holds nothing.
pub struct Ledger {
    pub balances: Map<(Address, Address), int>,
}

impl Ledger {
    /// How much of `asset` the holder has.
    pub open spec fn balance(self, holder: Address, asset: Address) -> int {
        if self.balances.contains_key((holder, asset)) {
            self.balances[(holder, asset)]
        } else {
            0
        }
    }

    /// The ledger after the host has made one move.
    pub open spec fn after(self, t: Transfer) -> Ledger {
        let debited = Ledger {
            balances: self.balances.insert((t.from, t.asset), self.balance(t.from, t.asset) - t.amount),
        };
        Ledger {
            balances: debited.balances.insert((t.to, t.asset), debited.balance(t.to, t.asset) + t.amount),
        }
    }
}

/// A move changes two balances and no other: what leaves one holder arrives
/// with the other, and a holder who pays itself ends where it began.
pub proof fn lemma_single_move(ledger: Ledger, t: Transfer, holder: Address, asset: Address)
    ensures
        ledger.after(t).balance(holder, asset) == ledger.balance(holder, asset) + (if asset == t.asset
            && holder == t.to {
            t.amount as int
        } else {
            0
        }) - (if asset == t.asset && holder == t.from {
            t.amount as int
        } else {
            0
        }),
{
}

/// Two moves one after the other change a holding by what arrives less what
/// leaves, whoever the parties are.
pub proof fn lemma_two_moves(ledger: Ledger, first: Transfer, second: Transfer, holder: Address, asset: Address)
    ensures
        ledger.after(first).after(second).balance(holder, asset) == ledger.balance(holder, asset) + (
        if asset == first.asset && holder == first.to {
            first.amount as int
        } else {
            0
        }) - (if asset == first.asset && holder == first.from {
            first.amount as int
        } else {
            0
        }) + (if asset == second.asset && holder == second.to {
            second.amount as int
        } else {
            0
        }) - (if asset == second.asset && holder == second.from {
            second.amount as int
        } else {
            0
        }),
{
    lemma_single_move(ledger, first, holder, asset);
    lemma_single_move(ledger.after(first), second, holder, asset);
}

} // verus!
