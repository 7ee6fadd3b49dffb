//! The custody vault of one offer.

use crate::address::Address;
use crate::errors::EscrowError;
use crate::transfer::Transfer;
use vstd::prelude::*;

verus! {

/// A holding place for one asset. What it holds changes only through
/// `deposit` and `release`.
#[derive(Clone, Copy, Debug, PartialEq, Eq)]
pub struct VaultCustody {
    /// Who may pay into the vault.
    pub owner: Address,
    /// Where the vault's assets sit.
    pub address: Address,
    /// The one asset the vault takes.
    pub asset: Address,
    /// How much of it the vault holds.
    pub held: u64,
}

impl VaultCustody {
    pub open spec fn empty_at(owner: Address, address: Address, asset: Address) -> VaultCustody {
        VaultCustody { owner, address, asset, held: 0 }
    }

    /// How much of `asset` the vault holds: nothing of any asset but its own.
    pub open spec fn holds(self, asset: Address) -> u64 {
        if asset == self.asset {
            self.held
        } else {
            0
        }
    }

    /// Why a deposit would be refused, if it would.
    pub open spec fn deposit_refusal(self, amount: u64, asset: Address) -> Option<EscrowError> {
        if amount == 0 {
            Some(EscrowError::InvalidAmount)
        } else if asset != self.asset {
            Some(EscrowError::InvalidAsset)
        } else if self.held + amount > u64::MAX {
            Some(EscrowError::InvalidAmount)
        } else {
            None
        }
    }

    pub open spec fn with_deposit(self, amount: u64) -> VaultCustody {
        VaultCustody { held: (self.held + amount) as u64, ..self }
    }

    /// Why a release would be refused, if it would.
    pub open spec fn release_refusal(self, amount: u64, asset: Address) -> Option<EscrowError> {
        if amount == 0 {
            Some(EscrowError::InvalidAmount)
        } else if self.holds(asset) < amount {
            Some(EscrowError::InsufficientCustody)
        } else {
            None
        }
    }

    pub open spec fn with_release(self, amount: u64) -> VaultCustody {
        VaultCustody { held: (self.held - amount) as u64, ..self }
    }

    /// The move that carries a release out of the vault.
    pub open spec fn release_move(self, amount: u64, asset: Address, destination: Address) -> Transfer {
        Transfer { from: self.address, to: destination, asset, amount }
    }

    /// An empty vault.
    pub fn new(owner: Address, address: Address, asset: Address) -> (r: VaultCustody)
        ensures
            r == VaultCustody::empty_at(owner, address, asset),
    {
        VaultCustody { owner, address, asset, held: 0 }
    }

    /// How much of `asset` the vault holds.
    pub fn holding(&self, asset: &Address) -> (r: u64)
        ensures
            r == self.holds(*asset),
    {
        if *asset == self.asset {
            self.held
        } else {
            0
        }
    }

    pub fn is_empty(&self) -> (r: bool)
        ensures
            r == (self.held == 0),
    {
        self.held == 0
    }

    /// Takes `amount` of `asset` into custody.
    pub fn deposit(&mut self, amount: u64, asset: Address) -> (r: Result<(), EscrowError>)
        ensures
            match old(self).deposit_refusal(amount, asset) {
                Some(e) => r == Err::<(), EscrowError>(e) && *final(self) == *old(self),
                None => r == Ok::<(), EscrowError>(()) && *final(self) == old(self).with_deposit(amount),
            },
    {
        if amount == 0 {
            return Err(EscrowError::InvalidAmount);
        }
        if asset != self.asset {
            return Err(EscrowError::InvalidAsset);
        }
        match self.held.checked_add(amount) {
            Some(total) => {
                self.held = total;
                Ok(())
            },
            None => Err(EscrowError::InvalidAmount),
        }
    }

    /// Lets `amount` of `asset` go to `destination`, and names the move that
    /// carries it there. The vault never lets go of more than it holds.
    pub fn release(&mut self, amount: u64, asset: Address, destination: Address) -> (r: Result<
        Transfer,
        EscrowError,
    >)
        ensures
            match old(self).release_refusal(amount, asset) {
                Some(e) => r == Err::<Transfer, EscrowError>(e) && *final(self) == *old(self),
                None => r == Ok::<Transfer, EscrowError>(
                    old(self).release_move(amount, asset, destination),
                ) && *final(self) == old(self).with_release(amount),
            },
    {
        if amount == 0 {
            return Err(EscrowError::InvalidAmount);
        }
        if self.holding(&asset) < amount {
            return Err(EscrowError::InsufficientCustody);
        }
        let order = Transfer { from: self.address, to: destination, asset, amount };
        self.held = self.held - amount;
        Ok(order)
    }
}

} // verus!
