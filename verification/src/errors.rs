//! Why a transition was refused.

use vstd::prelude::*;

verus! {

/// Every way a request can be refused. A refused request changes nothing and
/// asks for no move of assets.
#[derive(Clone, Copy, Debug, PartialEq, Eq, Structural)]
pub enum EscrowError {
    /// An offer already stands at the location derived for this maker and seed.
    DuplicateEscrow,
    /// An amount is zero, differs from the recorded amount, or does not fit.
    InvalidAmount,
    /// The asset named in the request is not the recorded asset.
    InvalidAsset,
    /// The caller did not sign, or is not the party this transition is for.
    Unauthorized,
    /// The record or vault that the request points at is not the one that
    /// belongs to the claimed maker and seed, or no such record is open.
    InvalidAccount,
    /// The maker's deposit is already in the vault.
    AlreadyDeposited,
    /// Settlement was asked for before the maker deposited.
    NotReady,
    /// Settlement was asked for on an offer that is settled or closed.
    AlreadyTaken,
    /// Cancellation was asked for after a taker committed.
    CannotCancel,
    /// The vault does not hold what was to be released.
    InsufficientCustody,
    /// The host could not move the assets.
    TransferFailure,
    /// The record was to be closed while its vault still holds assets.
    NotEmpty,
}

impl EscrowError {
    /// The refusal in words.
    pub open spec fn text(self) -> Seq<char> {
        match self {
            EscrowError::DuplicateEscrow => "An offer already exists for this maker and seed"@,
            EscrowError::InvalidAmount => "Invalid amount"@,
            EscrowError::InvalidAsset => "Invalid asset"@,
            EscrowError::Unauthorized => "Caller is not authorized"@,
            EscrowError::InvalidAccount => "Record or vault does not belong to this maker and seed"@,
            EscrowError::AlreadyDeposited => "Maker has already deposited"@,
            EscrowError::NotReady => "Maker has not deposited yet"@,
            EscrowError::AlreadyTaken => "Offer is already settled or closed"@,
            EscrowError::CannotCancel => "A taker has committed, the offer cannot be cancelled"@,
            EscrowError::InsufficientCustody => "Vault does not hold enough"@,
            EscrowError::TransferFailure => "Assets could not be moved"@,
            EscrowError::NotEmpty => "Vault is not empty"@,
        }
    }

    /// The refusal in words, for a log or a message to the caller.
    pub fn message(&self) -> (r: String)
        ensures
            r@ == self.text(),
    {
        match self {
            EscrowError::DuplicateEscrow => "An offer already exists for this maker and seed".to_owned(),
            EscrowError::InvalidAmount => "Invalid amount".to_owned(),
            EscrowError::InvalidAsset => "Invalid asset".to_owned(),
            EscrowError::Unauthorized => "Caller is not authorized".to_owned(),
            EscrowError::InvalidAccount => "Record or vault does not belong to this maker and seed".to_owned(),
            EscrowError::AlreadyDeposited => "Maker has already deposited".to_owned(),
            EscrowError::NotReady => "Maker has not deposited yet".to_owned(),
            EscrowError::AlreadyTaken => "Offer is already settled or closed".to_owned(),
            EscrowError::CannotCancel => "A taker has committed, the offer cannot be cancelled".to_owned(),
            EscrowError::InsufficientCustody => "Vault does not hold enough".to_owned(),
            EscrowError::TransferFailure => "Assets could not be moved".to_owned(),
            EscrowError::NotEmpty => "Vault is not empty".to_owned(),
        }
    }
}

} // verus!
