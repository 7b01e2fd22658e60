use vstd::prelude::*;

use crate::account::AccountId;

verus! {

/// Longest condition text a record may carry, in encoded bytes.
pub const MAX_CONDITIONS_BYTES: usize = 200;

/// Why an escrow operation was rejected. Every rejection is reported before
/// any balance moves, so a rejected call leaves every account as it found it.
#[derive(Clone, Copy, Debug, PartialEq, Eq, Structural)]
pub enum EscrowError {
    /// The record has already been settled by a cancel or an execute.
    InactiveRecord,
    /// The caller is not the party the operation demands, or does not own the
    /// account it presented.
    UnauthorizedCaller,
    /// Two accounts that must hold the same asset hold different ones.
    AssetTypeMismatch,
    /// The depositor's source account holds less than the requested amount.
    InsufficientFunds,
    /// The requested amount is zero, or the condition text is too long.
    InvalidInput,
}

/// One escrow's durable record: its parties, its asset accounts, the amount
/// held, the opaque condition text, and whether it is still active.
#[derive(Clone, Debug, PartialEq, Eq)]
pub struct EscrowAccount {
    /// The party that funded the escrow. Immutable after creation.
    pub initializer: AccountId,
    /// Address of the account the depositor is refunded to on cancellation.
    pub initializer_deposit_token_account: AccountId,
    /// Address of the account designated to receive the counter-asset;
    /// recorded for audit only, never moved by this core.
    pub initializer_receive_token_account: AccountId,
    /// Quantity of the asset held; fixed at creation, always positive.
    pub amount: u64,
    /// Opaque human-readable exchange terms; never interpreted.
    pub conditions: String,
    /// True from creation until the record is settled, exactly once, by
    /// cancel or execute; never true again afterwards.
    pub is_active: bool,
}

impl EscrowAccount {
    /// A record as every constructor makes it and every operation keeps it:
    /// a positive amount and bounded condition text.
    pub open spec fn well_formed(&self) -> bool {
        &&& self.amount > 0
        &&& vstd::utf8::encode_utf8(self.conditions@).len() <= MAX_CONDITIONS_BYTES
    }
}

} // verus!
