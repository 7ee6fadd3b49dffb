//! A two-party conditional asset-exchange escrow.
//!
//! A maker opens an offer, locks the offered asset in a custody vault and names
//! the asset and amount wanted in return. A taker who pays exactly that is handed
//! the locked asset in the same step; until then the maker may cancel and take
//! the deposit back.
//!
//! Assets themselves live with the host. Every transition comes as a pair: a
//! function that names the moves the host has to make, and a function that takes
//! the host's report on those moves and commits the new state, or leaves
//! everything as it was.

pub mod account;
pub mod address;
pub mod auth;
pub mod errors;
pub mod instructions;
pub mod laws;
pub mod program;
pub mod state;
pub mod transfer;

pub use account::EscrowAccount;
pub use address::Address;
pub use address::Role;
pub use auth::Caller;
pub use auth::EscrowRef;
pub use auth::Tender;
pub use errors::EscrowError;
pub use instructions::deposit::deposit_vault;
pub use instructions::deposit::deposit_vault_order;
pub use instructions::deposit::DepositVault;
pub use instructions::maker::maker;
pub use instructions::maker::maker_order;
pub use instructions::maker::Maker;
pub use instructions::refund::refund;
pub use instructions::refund::Refund;
pub use instructions::taker::taker;
pub use instructions::taker::Taker;
pub use program::EscrowProgram;
pub use state::escrow::Escrow;
pub use state::escrow::Phase;
pub use state::vault::VaultCustody;
pub use transfer::Transfer;
pub use transfer::TransferOutcome;
