//! One offer with its vault, and the steps it can take: the maker's deposit,
//! settlement with a taker, and cancellation.
//!
//! Each step has a function that checks the request and names the moves of
//! assets that the step needs, and a function that takes the host's report on
//! those moves and carries the step out. A refused request, or a move the
//! host could not make, leaves the offer as it was.

use crate::address::Address;
use crate::auth::authorize;
use crate::auth::authorize_signer;
use crate::auth::check_reference;
use crate::auth::check_tender;
use crate::auth::signed_by;
use crate::auth::tender_refusal;
use crate::auth::Caller;
use crate::auth::EscrowRef;
use crate::auth::Tender;
use crate::errors::EscrowError;
use crate::state::escrow::Escrow;
use crate::state::vault::VaultCustody;
use crate::transfer::Transfer;
use crate::transfer::TransferOutcome;
use vstd::prelude::*;

verus! {

/// An offer as it is kept: where its record lives, the record, and its vault.
#[derive(Clone, Copy, Debug, PartialEq, Eq)]
pub struct EscrowAccount {
    pub id: Address,
    pub record: Escrow,
    pub vault: VaultCustody,
}

impl EscrowAccount {
    /// The record is sound, the vault is the maker's and takes the offered
    /// asset, and it holds the whole deposit from the maker's deposit until
    /// settlement or refund, and nothing otherwise.
    pub open spec fn wf(self) -> bool {
        &&& self.record.wf()
        &&& self.vault.owner == self.record.maker
        &&& self.vault.asset == self.record.give_asset
        &&& self.vault.held == if self.record.maker_deposited && !self.record.taker_deposited {
            self.record.give_amount
        } else {
            0
        }
    }

    /// How a request has to point at this offer.
    pub open spec fn reference(self) -> EscrowRef {
        EscrowRef {
            maker: self.record.maker,
            seed: self.record.seed,
            escrow: self.id,
            vault: self.vault.address,
        }
    }

    pub open spec fn opened(
        id: Address,
        vault: Address,
        maker: Address,
        seed: u64,
        give_asset: Address,
        give_amount: u64,
        want_asset: Address,
        want_amount: u64,
    ) -> EscrowAccount {
        EscrowAccount {
            id,
            record: Escrow::fresh(maker, seed, give_asset, give_amount, want_asset, want_amount),
            vault: VaultCustody::empty_at(maker, vault, give_asset),
        }
    }

    /// The move that brings the maker's deposit into the vault.
    pub open spec fn deposit_move(self) -> Transfer {
        Transfer {
            from: self.record.maker,
            to: self.vault.address,
            asset: self.record.give_asset,
            amount: self.record.give_amount,
        }
    }

    /// The move that pays the maker what the maker wanted.
    pub open spec fn payment_move(self, taker: Address) -> Transfer {
        Transfer {
            from: taker,
            to: self.record.maker,
            asset: self.record.want_asset,
            amount: self.record.want_amount,
        }
    }

    /// The move that hands the deposit to `to`.
    pub open spec fn release_move(self, to: Address) -> Transfer {
        self.vault.release_move(self.record.give_amount, self.record.give_asset, to)
    }

    /// The offer once the maker's deposit is in the vault.
    pub open spec fn funded(self) -> EscrowAccount {
        EscrowAccount {
            record: self.record.with_maker_deposit(),
            vault: self.vault.with_deposit(self.record.give_amount),
            ..self
        }
    }

    /// The offer once `taker` has paid and the deposit has left the vault.
    pub open spec fn settled(self, taker: Address) -> EscrowAccount {
        EscrowAccount {
            record: self.record.with_taker_deposit(taker),
            vault: self.vault.with_release(self.record.give_amount),
            ..self
        }
    }

    /// The offer once a deposit, if there was one, has gone back to the maker.
    pub open spec fn refunded(self) -> EscrowAccount {
        if self.record.maker_deposited {
            EscrowAccount {
                record: self.record.without_deposits(),
                vault: self.vault.with_release(self.record.give_amount),
                ..self
            }
        } else {
            self
        }
    }

    /// The maker's deposit: the move it needs, or why it is refused. The
    /// caller must be the maker, must bring exactly the offered asset and
    /// amount, and must point at this offer; and the deposit must not be in
    /// the vault already.
    pub open spec fn deposit_check(self, caller: Caller, target: EscrowRef, tender: Tender) -> Result<
        Transfer,
        EscrowError,
    > {
        if !signed_by(caller, self.record.maker) {
            Err(EscrowError::Unauthorized)
        } else if tender_refusal(tender, self.record.give_asset, self.record.give_amount) is Some {
            Err(tender_refusal(tender, self.record.give_asset, self.record.give_amount)->0)
        } else if target != self.reference() {
            Err(EscrowError::InvalidAccount)
        } else if self.record.maker_deposited {
            Err(EscrowError::AlreadyDeposited)
        } else if self.vault.deposit_refusal(self.record.give_amount, self.record.give_asset) is Some {
            Err(self.vault.deposit_refusal(self.record.give_amount, self.record.give_asset)->0)
        } else {
            Ok(self.deposit_move())
        }
    }

    /// Settlement: the two moves it needs, or why it is refused. Any caller
    /// who signed may take the offer, but must bring exactly the wanted asset
    /// and amount and point at this offer; the maker's deposit must be in the
    /// vault, untaken, and be all the vault holds.
    pub open spec fn settle_check(self, caller: Caller, target: EscrowRef, tender: Tender) -> Result<
        (Transfer, Transfer),
        EscrowError,
    > {
        if !caller.is_signer {
            Err(EscrowError::Unauthorized)
        } else if tender_refusal(tender, self.record.want_asset, self.record.want_amount) is Some {
            Err(tender_refusal(tender, self.record.want_asset, self.record.want_amount)->0)
        } else if target != self.reference() {
            Err(EscrowError::InvalidAccount)
        } else if !self.record.maker_deposited {
            Err(EscrowError::NotReady)
        } else if self.record.taker_deposited {
            Err(EscrowError::AlreadyTaken)
        } else if self.vault.release_refusal(self.record.give_amount, self.record.give_asset) is Some {
            Err(self.vault.release_refusal(self.record.give_amount, self.record.give_asset)->0)
        } else if self.vault.held != self.record.give_amount {
            Err(EscrowError::NotEmpty)
        } else {
            Ok((self.payment_move(caller.key), self.release_move(caller.key)))
        }
    }

    /// Cancellation: the move it needs, if any, or why it is refused. The
    /// caller must be the maker and point at this offer, and no taker may
    /// have committed. A deposit goes back to the maker; without one there
    /// is nothing to move.
    pub open spec fn cancel_check(self, caller: Caller, target: EscrowRef) -> Result<
        Option<Transfer>,
        EscrowError,
    > {
        if !signed_by(caller, self.record.maker) {
            Err(EscrowError::Unauthorized)
        } else if target != self.reference() {
            Err(EscrowError::InvalidAccount)
        } else if self.record.taker_deposited {
            Err(EscrowError::CannotCancel)
        } else if self.record.maker_deposited {
            if self.vault.release_refusal(self.record.give_amount, self.record.give_asset) is Some {
                Err(self.vault.release_refusal(self.record.give_amount, self.record.give_asset)->0)
            } else if self.vault.held != self.record.give_amount {
                Err(EscrowError::NotEmpty)
            } else {
                Ok(Some(self.release_move(self.record.maker)))
            }
        } else if self.vault.held != 0 {
            Err(EscrowError::NotEmpty)
        } else {
            Ok(None)
        }
    }

    /// The offer after the maker's deposit, or why it stays as it is.
    pub open spec fn after_maker_deposit(
        self,
        caller: Caller,
        target: EscrowRef,
        tender: Tender,
        moved: TransferOutcome,
    ) -> Result<EscrowAccount, EscrowError> {
        match self.deposit_check(caller, target, tender) {
            Err(e) => Err(e),
            Ok(_) => if moved == TransferOutcome::Completed {
                Ok(self.funded())
            } else {
                Err(EscrowError::TransferFailure)
            },
        }
    }

    /// The offer after settlement, or why it stays as it is.
    pub open spec fn after_settle(
        self,
        caller: Caller,
        target: EscrowRef,
        tender: Tender,
        moved: TransferOutcome,
    ) -> Result<EscrowAccount, EscrowError> {
        match self.settle_check(caller, target, tender) {
            Err(e) => Err(e),
            Ok(_) => if moved == TransferOutcome::Completed {
                Ok(self.settled(caller.key))
            } else {
                Err(EscrowError::TransferFailure)
            },
        }
    }

    /// The offer after cancellation, or why it stays as it is. Where nothing
    /// had to be moved, the host's report does not matter.
    pub open spec fn after_cancel(self, caller: Caller, target: EscrowRef, moved: TransferOutcome) -> Result<
        EscrowAccount,
        EscrowError,
    > {
        match self.cancel_check(caller, target) {
            Err(e) => Err(e),
            Ok(None) => Ok(self),
            Ok(Some(_)) => if moved == TransferOutcome::Completed {
                Ok(self.refunded())
            } else {
                Err(EscrowError::TransferFailure)
            },
        }
    }

    /// Why the record cannot be closed, if it cannot.
    pub open spec fn close_refusal(self) -> Option<EscrowError> {
        if self.vault.held != 0 {
            Some(EscrowError::NotEmpty)
        } else {
            None
        }
    }

    /// A new offer at the given locations, with an empty vault.
    pub fn open(
        id: Address,
        vault: Address,
        maker: Address,
        seed: u64,
        give_asset: Address,
        give_amount: u64,
        want_asset: Address,
        want_amount: u64,
    ) -> (r: Result<EscrowAccount, EscrowError>)
        ensures
            give_amount == 0 || want_amount == 0 ==> r == Err::<EscrowAccount, EscrowError>(
                EscrowError::InvalidAmount,
            ),
            give_amount > 0 && want_amount > 0 ==> r == Ok::<EscrowAccount, EscrowError>(
                EscrowAccount::opened(
                    id,
                    vault,
                    maker,
                    seed,
                    give_asset,
                    give_amount,
                    want_asset,
                    want_amount,
                ),
            ),
            r matches Ok(account) ==> account.wf(),
    {
        match Escrow::new(maker, seed, give_asset, give_amount, want_asset, want_amount) {
            Err(e) => Err(e),
            Ok(record) => Ok(
                EscrowAccount { id, record, vault: VaultCustody::new(maker, vault, give_asset) },
            ),
        }
    }

    /// How a request has to point at this offer.
    pub fn reference_of(&self) -> (r: EscrowRef)
        ensures
            r == self.reference(),
    {
        EscrowRef {
            maker: self.record.maker,
            seed: self.record.seed,
            escrow: self.id,
            vault: self.vault.address,
        }
    }

    /// Whether the record, the vault and the flags fit together.
    pub fn is_valid(&self) -> (r: bool)
        ensures
            r == self.wf(),
    {
        let in_custody = self.record.maker_deposited && !self.record.taker_deposited;
        self.record.give_amount > 0 && self.record.want_amount > 0 && (self.record.maker_deposited
            || !self.record.taker_deposited) && (self.record.taker.is_some()
            == self.record.taker_deposited) && self.vault.owner == self.record.maker
            && self.vault.asset == self.record.give_asset && self.vault.held == (if in_custody {
            self.record.give_amount
        } else {
            0
        })
    }

    /// Checks a request for the maker's deposit and names the move the host
    /// has to make for it. Nothing changes.
    pub fn maker_deposit_order(&self, caller: &Caller, target: &EscrowRef, tender: &Tender) -> (r: Result<
        Transfer,
        EscrowError,
    >)
        ensures
            r == self.deposit_check(*caller, *target, *tender),
    {
        authorize(caller, &self.record.maker)?;
        check_tender(tender, &self.record.give_asset, self.record.give_amount)?;
        check_reference(target, &self.reference_of())?;
        if self.record.maker_deposited {
            return Err(EscrowError::AlreadyDeposited);
        }
        let mut vault = self.vault;
        vault.deposit(self.record.give_amount, self.record.give_asset)?;
        Ok(
            Transfer {
                from: self.record.maker,
                to: self.vault.address,
                asset: self.record.give_asset,
                amount: self.record.give_amount,
            },
        )
    }

    /// The maker's deposit. With the request in order and the move made, the
    /// vault holds the deposit and the record says so. Otherwise nothing
    /// changes.
    pub fn maker_deposit(
        &mut self,
        caller: &Caller,
        target: &EscrowRef,
        tender: &Tender,
        moved: TransferOutcome,
    ) -> (r: Result<(), EscrowError>)
        ensures
            match old(self).after_maker_deposit(*caller, *target, *tender, moved) {
                Ok(next) => r == Ok::<(), EscrowError>(()) && *final(self) == next,
                Err(e) => r == Err::<(), EscrowError>(e) && *final(self) == *old(self),
            },
            old(self).wf() ==> final(self).wf(),
    {
        self.maker_deposit_order(caller, target, tender)?;
        if moved == TransferOutcome::Failed {
            return Err(EscrowError::TransferFailure);
        }
        let mut vault = self.vault;
        let mut record = self.record;
        vault.deposit(record.give_amount, record.give_asset)?;
        record.mark_maker_deposited()?;
        self.vault = vault;
        self.record = record;
        Ok(())
    }

    /// Checks a request for settlement and names the two moves the host has
    /// to make together: the taker's payment to the maker, and the deposit
    /// from the vault to the taker. Nothing changes.
    pub fn settlement_orders(&self, caller: &Caller, target: &EscrowRef, tender: &Tender) -> (r: Result<
        (Transfer, Transfer),
        EscrowError,
    >)
        ensures
            r == self.settle_check(*caller, *target, *tender),
    {
        authorize_signer(caller)?;
        check_tender(tender, &self.record.want_asset, self.record.want_amount)?;
        check_reference(target, &self.reference_of())?;
        let mut record = self.record;
        record.mark_taker_deposited(caller.key)?;
        let mut vault = self.vault;
        let release = vault.release(self.record.give_amount, self.record.give_asset, caller.key)?;
        if !vault.is_empty() {
            return Err(EscrowError::NotEmpty);
        }
        let payment = Transfer {
            from: caller.key,
            to: self.record.maker,
            asset: self.record.want_asset,
            amount: self.record.want_amount,
        };
        Ok((payment, release))
    }

    /// Settlement. With the request in order and both moves made, the record
    /// names the taker, the vault is empty, and the offer is ready to be
    /// closed. Otherwise nothing changes.
    pub fn taker_deposit_and_settle(
        &mut self,
        caller: &Caller,
        target: &EscrowRef,
        tender: &Tender,
        moved: TransferOutcome,
    ) -> (r: Result<(), EscrowError>)
        ensures
            match old(self).after_settle(*caller, *target, *tender, moved) {
                Ok(next) => r == Ok::<(), EscrowError>(()) && *final(self) == next
                    && next.close_refusal() is None,
                Err(e) => r == Err::<(), EscrowError>(e) && *final(self) == *old(self),
            },
            old(self).wf() ==> final(self).wf(),
    {
        self.settlement_orders(caller, target, tender)?;
        if moved == TransferOutcome::Failed {
            return Err(EscrowError::TransferFailure);
        }
        let mut vault = self.vault;
        let mut record = self.record;
        vault.release(record.give_amount, record.give_asset, caller.key)?;
        record.mark_taker_deposited(caller.key)?;
        self.vault = vault;
        self.record = record;
        Ok(())
    }

    /// Checks a request for cancellation and names the move that gives the
    /// deposit back, if there is a deposit. Nothing changes.
    pub fn refund_order(&self, caller: &Caller, target: &EscrowRef) -> (r: Result<
        Option<Transfer>,
        EscrowError,
    >)
        ensures
            r == self.cancel_check(*caller, *target),
    {
        authorize(caller, &self.record.maker)?;
        check_reference(target, &self.reference_of())?;
        if self.record.taker_deposited {
            return Err(EscrowError::CannotCancel);
        }
        let mut vault = self.vault;
        if self.record.maker_deposited {
            let release = vault.release(
                self.record.give_amount,
                self.record.give_asset,
                self.record.maker,
            )?;
            if !vault.is_empty() {
                return Err(EscrowError::NotEmpty);
            }
            Ok(Some(release))
        } else if !vault.is_empty() {
            Err(EscrowError::NotEmpty)
        } else {
            Ok(None)
        }
    }

    /// Cancellation. With the request in order and the deposit, if any, moved
    /// back to the maker, the vault is empty, no deposit is on record, and
    /// the offer is ready to be closed. Otherwise nothing changes.
    pub fn cancel(&mut self, caller: &Caller, target: &EscrowRef, moved: TransferOutcome) -> (r: Result<
        (),
        EscrowError,
    >)
        ensures
            match old(self).after_cancel(*caller, *target, moved) {
                Ok(next) => r == Ok::<(), EscrowError>(()) && *final(self) == next
                    && next.close_refusal() is None,
                Err(e) => r == Err::<(), EscrowError>(e) && *final(self) == *old(self),
            },
            old(self).wf() ==> final(self).wf(),
    {
        match self.refund_order(caller, target) {
            Err(e) => Err(e),
            Ok(None) => Ok(()),
            Ok(Some(_)) => {
                if moved == TransferOutcome::Failed {
                    return Err(EscrowError::TransferFailure);
                }
                let mut vault = self.vault;
                vault.release(self.record.give_amount, self.record.give_asset, self.record.maker)?;
                self.vault = vault;
                self.record.maker_deposited = false;
                Ok(())
            },
        }
    }

    /// Closes the record. A record whose vault still holds assets stays.
    pub fn close(self) -> (r: Result<(), EscrowError>)
        ensures
            match self.close_refusal() {
                Some(e) => r == Err::<(), EscrowError>(e),
                None => r == Ok::<(), EscrowError>(()),
            },
    {
        if self.vault.is_empty() {
            Ok(())
        } else {
            Err(EscrowError::NotEmpty)
        }
    }
}

} // verus!
