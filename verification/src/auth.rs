//! Who may ask for what. A request is held against the record before any
//! state is looked at: the caller's role, what the caller brings, and the
//! offer the caller points at.

use crate::address::Address;
use crate::errors::EscrowError;
use vstd::prelude::*;

verus! {

/// The party asking for a transition, as the host's identity check reports
/// it: the address, and whether that address signed the request.
#[derive(Clone, Copy, Debug, PartialEq, Eq)]
pub struct Caller {
    pub key: Address,
    pub is_signer: bool,
}

/// The offer a request points at: the maker and seed it claims, and the
/// record and vault it names.
#[derive(Clone, Copy, Debug, PartialEq, Eq)]
pub struct EscrowRef {
    pub maker: Address,
    pub seed: u64,
    pub escrow: Address,
    pub vault: Address,
}

/// What the caller brings to a transition.
#[derive(Clone, Copy, Debug, PartialEq, Eq)]
pub struct Tender {
    pub asset: Address,
    pub amount: u64,
}

/// The caller signed and is the named party.
pub open spec fn signed_by(caller: Caller, party: Address) -> bool {
    caller.is_signer && caller.key == party
}

/// Why what the caller brings is refused, if it is: the wrong asset, or the
/// right asset in another amount than the recorded one.
pub open spec fn tender_refusal(tender: Tender, asset: Address, amount: u64) -> Option<EscrowError> {
    if tender.asset != asset {
        Some(EscrowError::InvalidAsset)
    } else if tender.amount != amount {
        Some(EscrowError::InvalidAmount)
    } else {
        None
    }
}

/// Admits the caller only as the named party.
pub fn authorize(caller: &Caller, party: &Address) -> (r: Result<(), EscrowError>)
    ensures
        signed_by(*caller, *party) ==> r == Ok::<(), EscrowError>(()),
        !signed_by(*caller, *party) ==> r == Err::<(), EscrowError>(EscrowError::Unauthorized),
{
    if caller.is_signer && caller.key == *party {
        Ok(())
    } else {
        Err(EscrowError::Unauthorized)
    }
}

/// Admits any caller who signed: whoever is willing to meet an offer may take
/// it.
pub fn authorize_signer(caller: &Caller) -> (r: Result<(), EscrowError>)
    ensures
        caller.is_signer ==> r == Ok::<(), EscrowError>(()),
        !caller.is_signer ==> r == Err::<(), EscrowError>(EscrowError::Unauthorized),
{
    if caller.is_signer {
        Ok(())
    } else {
        Err(EscrowError::Unauthorized)
    }
}

/// Holds what the caller brings against the recorded asset and amount. Only
/// the exact asset in the exact amount passes.
pub fn check_tender(tender: &Tender, asset: &Address, amount: u64) -> (r: Result<(), EscrowError>)
    ensures
        match tender_refusal(*tender, *asset, amount) {
            Some(e) => r == Err::<(), EscrowError>(e),
            None => r == Ok::<(), EscrowError>(()),
        },
{
    if tender.asset != *asset {
        Err(EscrowError::InvalidAsset)
    } else if tender.amount != amount {
        Err(EscrowError::InvalidAmount)
    } else {
        Ok(())
    }
}

/// Holds the offer a request points at against the offer on record. Any
/// difference, in the claimed maker or seed or in the named record or vault,
/// is refused.
pub fn check_reference(target: &EscrowRef, recorded: &EscrowRef) -> (r: Result<(), EscrowError>)
    ensures
        *target == *recorded ==> r == Ok::<(), EscrowError>(()),
        *target != *recorded ==> r == Err::<(), EscrowError>(EscrowError::InvalidAccount),
{
    if target.maker == recorded.maker && target.seed == recorded.seed && target.escrow
        == recorded.escrow && target.vault == recorded.vault {
        Ok(())
    } else {
        Err(EscrowError::InvalidAccount)
    }
}

} // verus!
