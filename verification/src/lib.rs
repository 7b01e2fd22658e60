//! A two-party conditional asset exchange.
//!
//! One party deposits a fungible asset into a neutral held account by opening
//! an escrow record; later, exactly one of two settlement paths fires: the
//! depositor cancels and is refunded, or a counterparty executes and is paid.
//! The record's status and the held balance move together in one atomic step,
//! so the held asset can never be released twice, and never by a party the
//! protocol does not authorize.

pub mod account;
pub mod authority;
pub mod codec;
pub mod laws;
pub mod ops;
pub mod record;

pub use ops::CancelEscrow;
pub use ops::ExecuteEscrow;
pub use ops::InitializeEscrow;
pub use ops::cancel_escrow;
pub use ops::execute_escrow;
pub use ops::initialize_escrow;
pub use authority::escrow_authority;
pub use account::AccountId;
pub use account::TokenAccount;
pub use account::id_eq;
pub use record::EscrowAccount;
pub use record::EscrowError;
pub use record::MAX_CONDITIONS_BYTES;
