//! The record of one offer.

use crate::address::Address;
use crate::errors::EscrowError;
use vstd::prelude::*;

verus! {

/// One offer: what the maker gives, what the maker wants, and how far the
/// exchange has come.
#[derive(Clone, Copy, Debug, PartialEq, Eq)]
pub struct Escrow {
    /// Chosen by the maker, so that one maker can keep several offers open.
    pub seed: u64,
    /// Who opened the offer. Never changes.
    pub maker: Address,
    /// Who accepted the offer. Unset until settlement, then set once.
    pub taker: Option<Address>,
    pub give_asset: Address,
    pub give_amount: u64,
    pub want_asset: Address,
    pub want_amount: u64,
    pub maker_deposited: bool,
    pub taker_deposited: bool,
}

/// How far an offer has come.
#[derive(Clone, Copy, Debug, PartialEq, Eq, Structural)]
pub enum Phase {
    /// Open, nothing deposited yet.
    Open,
    /// Open, the maker's deposit is in the vault.
    Funded,
    /// The taker has paid and the deposit has gone to the taker.
    Settled,
}

impl Escrow {
    /// What holds of every record at every moment: both amounts are positive,
    /// no taker deposits before the maker, and a taker is named exactly when
    /// the taker has deposited.
    pub open spec fn wf(self) -> bool {
        &&& self.give_amount > 0
        &&& self.want_amount > 0
        &&& !self.maker_deposited ==> !self.taker_deposited
        &&& self.taker is Some <==> self.taker_deposited
    }

    pub open spec fn fresh(
        maker: Address,
        seed: u64,
        give_asset: Address,
        give_amount: u64,
        want_asset: Address,
        want_amount: u64,
    ) -> Escrow {
        Escrow {
            seed,
            maker,
            taker: None,
            give_asset,
            give_amount,
            want_asset,
            want_amount,
            maker_deposited: false,
            taker_deposited: false,
        }
    }

    pub open spec fn with_maker_deposit(self) -> Escrow {
        Escrow { maker_deposited: true, ..self }
    }

    pub open spec fn with_taker_deposit(self, taker: Address) -> Escrow {
        Escrow { taker: Some(taker), taker_deposited: true, ..self }
    }

    pub open spec fn without_deposits(self) -> Escrow {
        Escrow { maker_deposited: false, ..self }
    }

    pub open spec fn phase(self) -> Phase {
        if self.taker_deposited {
            Phase::Settled
        } else if self.maker_deposited {
            Phase::Funded
        } else {
            Phase::Open
        }
    }

    /// A new record with nothing deposited. An offer of nothing, or for
    /// nothing, is refused.
    pub fn new(
        maker: Address,
        seed: u64,
        give_asset: Address,
        give_amount: u64,
        want_asset: Address,
        want_amount: u64,
    ) -> (r: Result<Escrow, EscrowError>)
        ensures
            give_amount == 0 || want_amount == 0 ==> r == Err::<Escrow, EscrowError>(
                EscrowError::InvalidAmount,
            ),
            give_amount > 0 && want_amount > 0 ==> r == Ok::<Escrow, EscrowError>(
                Escrow::fresh(maker, seed, give_asset, give_amount, want_asset, want_amount),
            ),
            r matches Ok(record) ==> record.wf(),
    {
        if give_amount == 0 || want_amount == 0 {
            return Err(EscrowError::InvalidAmount);
        }
        Ok(
            Escrow {
                seed,
                maker,
                taker: None,
                give_asset,
                give_amount,
                want_asset,
                want_amount,
                maker_deposited: false,
                taker_deposited: false,
            },
        )
    }

    /// Notes that the maker's deposit has arrived. It arrives once.
    pub fn mark_maker_deposited(&mut self) -> (r: Result<(), EscrowError>)
        ensures
            old(self).maker_deposited ==> r == Err::<(), EscrowError>(EscrowError::AlreadyDeposited)
                && *final(self) == *old(self),
            !old(self).maker_deposited ==> r == Ok::<(), EscrowError>(()) && *final(self) == old(
                self,
            ).with_maker_deposit(),
            old(self).wf() ==> final(self).wf(),
    {
        if self.maker_deposited {
            return Err(EscrowError::AlreadyDeposited);
        }
        self.maker_deposited = true;
        Ok(())
    }

    /// Notes who took the offer. A taker comes after the maker's deposit, and
    /// only once.
    pub fn mark_taker_deposited(&mut self, taker: Address) -> (r: Result<(), EscrowError>)
        ensures
            !old(self).maker_deposited ==> r == Err::<(), EscrowError>(EscrowError::NotReady)
                && *final(self) == *old(self),
            old(self).maker_deposited && old(self).taker_deposited ==> r == Err::<(), EscrowError>(
                EscrowError::AlreadyTaken,
            ) && *final(self) == *old(self),
            old(self).maker_deposited && !old(self).taker_deposited ==> r == Ok::<(), EscrowError>(())
                && *final(self) == old(self).with_taker_deposit(taker),
            old(self).wf() ==> final(self).wf(),
    {
        if !self.maker_deposited {
            return Err(EscrowError::NotReady);
        }
        if self.taker_deposited {
            return Err(EscrowError::AlreadyTaken);
        }
        self.taker = Some(taker);
        self.taker_deposited = true;
        Ok(())
    }

    /// Where the offer stands.
    pub fn current_phase(&self) -> (r: Phase)
        ensures
            r == self.phase(),
    {
        if self.taker_deposited {
            Phase::Settled
        } else if self.maker_deposited {
            Phase::Funded
        } else {
            Phase::Open
        }
    }
}

} // verus!
