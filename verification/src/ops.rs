use vstd::prelude::*;

use crate::account::AccountId;
use crate::account::TokenAccount;
use crate::account::id_eq;
use crate::record::EscrowAccount;
use crate::record::EscrowError;
use crate::record::MAX_CONDITIONS_BYTES;

verus! {

broadcast use vstd::slice::group_slice_axioms;

/// Everything an open call reads and writes: the depositor (already
/// authenticated by the host), the depositor's source account, the account
/// designated to receive the counter-asset, and the fresh account that will
/// hold the escrowed asset.
#[derive(Clone, Copy, Debug, PartialEq, Eq)]
pub struct InitializeEscrow {
    pub initializer: AccountId,
    pub initializer_deposit_token_account: TokenAccount,
    pub initializer_receive_token_account: TokenAccount,
    pub escrow_token_account: TokenAccount,
}

/// Everything a cancel call reads and writes: the caller (already
/// authenticated), the account the held asset is refunded to, the record
/// being settled, and its held account.
#[derive(Clone, Debug, PartialEq, Eq)]
pub struct CancelEscrow {
    pub initializer: AccountId,
    pub initializer_deposit_token_account: TokenAccount,
    pub escrow: EscrowAccount,
    pub escrow_token_account: TokenAccount,
}

/// Everything an execute call reads and writes: the claiming counterparty
/// (already authenticated), the account it is paid to, the record being
/// settled, the original depositor (kept only so the runtime can route the
/// record's storage deposit back on closure), and the held account.
#[derive(Clone, Debug, PartialEq, Eq)]
pub struct ExecuteEscrow {
    pub recipient: AccountId,
    pub recipient_token_account: TokenAccount,
    pub escrow: EscrowAccount,
    pub initializer: AccountId,
    pub escrow_token_account: TokenAccount,
}

/// The first rejection an open call runs into, or `None` when it is accepted.
/// Validation is front-loaded: a rejected call has moved nothing.
pub open spec fn open_error(
    ctx: InitializeEscrow,
    amount: u64,
    conditions: Seq<char>,
) -> Option<EscrowError> {
    if amount == 0 || vstd::utf8::encode_utf8(conditions).len() > MAX_CONDITIONS_BYTES {
        Some(EscrowError::InvalidInput)
    } else if ctx.initializer_deposit_token_account.owner@ != ctx.initializer@ {
        Some(EscrowError::UnauthorizedCaller)
    } else if ctx.initializer_receive_token_account.owner@ != ctx.initializer@ {
        Some(EscrowError::UnauthorizedCaller)
    } else if ctx.escrow_token_account.mint@ != ctx.initializer_deposit_token_account.mint@ {
        Some(EscrowError::AssetTypeMismatch)
    } else if ctx.initializer_deposit_token_account.amount < amount {
        Some(EscrowError::InsufficientFunds)
    } else {
        None
    }
}

/// The record an accepted open call creates.
pub open spec fn open_record(
    ctx: InitializeEscrow,
    amount: u64,
    conditions: String,
) -> EscrowAccount {
    EscrowAccount {
        initializer: ctx.initializer,
        initializer_deposit_token_account: ctx.initializer_deposit_token_account.key,
        initializer_receive_token_account: ctx.initializer_receive_token_account.key,
        amount: amount,
        conditions: conditions,
        is_active: true,
    }
}

/// The account states an accepted open call leaves behind: `amount` has moved
/// from the depositor's source account into the held account; nothing else
/// changes.
pub open spec fn open_post(ctx: InitializeEscrow, amount: u64) -> InitializeEscrow {
    InitializeEscrow {
        initializer_deposit_token_account: TokenAccount {
            amount: (ctx.initializer_deposit_token_account.amount - amount) as u64,
            ..ctx.initializer_deposit_token_account
        },
        escrow_token_account: TokenAccount {
            amount: (ctx.escrow_token_account.amount + amount) as u64,
            ..ctx.escrow_token_account
        },
        ..ctx
    }
}

/// The atomic open transition: the post-state of the accounts together with
/// the call's outcome.
pub open spec fn open_step(
    ctx: InitializeEscrow,
    amount: u64,
    conditions: String,
) -> (InitializeEscrow, Result<EscrowAccount, EscrowError>) {
    match open_error(ctx, amount, conditions@) {
        Some(e) => (ctx, Err(e)),
        None => (open_post(ctx, amount), Ok(open_record(ctx, amount, conditions))),
    }
}

/// Opens an escrow: validates the call, moves `amount` from the depositor's
/// source account into the fresh held account, and returns the new record,
/// created active. Either the record is returned and the asset has moved, or
/// an error is returned and every account is exactly as it was.
pub fn initialize_escrow(
    ctx: &mut InitializeEscrow,
    amount: u64,
    conditions: String,
) -> (r: Result<EscrowAccount, EscrowError>)
    requires
        old(ctx).escrow_token_account.amount == 0,  // the held account is fresh
    ensures
        (*final(ctx), r) == open_step(*old(ctx), amount, conditions),
        r is Ok <==> open_error(*old(ctx), amount, conditions@) is None,
        r is Err ==> *final(ctx) == *old(ctx),
        r matches Err(e) ==> open_error(*old(ctx), amount, conditions@) == Some(e),
        r matches Ok(rec) ==> ({
            &&& rec == open_record(*old(ctx), amount, conditions)
            &&& rec.well_formed()
            &&& rec.is_active
            &&& final(ctx).escrow_token_account.amount == amount
            &&& final(ctx).initializer_deposit_token_account.amount
                == old(ctx).initializer_deposit_token_account.amount - amount
        }),
{
    if amount == 0 {
        return Err(EscrowError::InvalidInput);
    }
    if conditions.as_str().as_bytes().len() > MAX_CONDITIONS_BYTES {
        return Err(EscrowError::InvalidInput);
    }
    if !id_eq(&ctx.initializer_deposit_token_account.owner, &ctx.initializer) {
        return Err(EscrowError::UnauthorizedCaller);
    }
    if !id_eq(&ctx.initializer_receive_token_account.owner, &ctx.initializer) {
        return Err(EscrowError::UnauthorizedCaller);
    }
    if !id_eq(&ctx.escrow_token_account.mint, &ctx.initializer_deposit_token_account.mint) {
        return Err(EscrowError::AssetTypeMismatch);
    }
    if ctx.initializer_deposit_token_account.amount < amount {
        return Err(EscrowError::InsufficientFunds);
    }
    ctx.initializer_deposit_token_account.amount =
        ctx.initializer_deposit_token_account.amount - amount;
    ctx.escrow_token_account.amount = ctx.escrow_token_account.amount + amount;
    Ok(EscrowAccount {
        initializer: ctx.initializer,
        initializer_deposit_token_account: ctx.initializer_deposit_token_account.key,
        initializer_receive_token_account: ctx.initializer_receive_token_account.key,
        amount: amount,
        conditions: conditions,
        is_active: true,
    })
}

/// The first rejection a cancel call runs into, or `None` when it is
/// accepted. A caller other than the record's depositor is turned away
/// whatever the record's status.
pub open spec fn cancel_error(ctx: CancelEscrow) -> Option<EscrowError> {
    if ctx.initializer@ != ctx.escrow.initializer@ {
        Some(EscrowError::UnauthorizedCaller)
    } else if !ctx.escrow.is_active {
        Some(EscrowError::InactiveRecord)
    } else if ctx.initializer_deposit_token_account.owner@ != ctx.initializer@ {
        Some(EscrowError::UnauthorizedCaller)
    } else if ctx.initializer_deposit_token_account.mint@ != ctx.escrow_token_account.mint@ {
        Some(EscrowError::AssetTypeMismatch)
    } else {
        None
    }
}

/// The state an accepted cancel leaves behind: the record's full amount has
/// moved from the held account back to the depositor's refund account, and
/// the record is settled.
pub open spec fn cancel_post(ctx: CancelEscrow) -> CancelEscrow {
    CancelEscrow {
        initializer_deposit_token_account: TokenAccount {
            amount: (ctx.initializer_deposit_token_account.amount + ctx.escrow.amount) as u64,
            ..ctx.initializer_deposit_token_account
        },
        escrow: EscrowAccount { is_active: false, ..ctx.escrow },
        escrow_token_account: TokenAccount {
            amount: (ctx.escrow_token_account.amount - ctx.escrow.amount) as u64,
            ..ctx.escrow_token_account
        },
        ..ctx
    }
}

/// The atomic cancel transition: the post-state together with the outcome.
/// The status flip and the refund happen in the same step, so no state in
/// which the asset moved but the record stayed active ever exists.
pub open spec fn cancel_step(ctx: CancelEscrow) -> (CancelEscrow, Result<(), EscrowError>) {
    match cancel_error(ctx) {
        Some(e) => (ctx, Err(e)),
        None => (cancel_post(ctx), Ok(())),
    }
}

/// Cancels an active escrow on behalf of its depositor: the full held amount
/// goes back to the depositor's refund account and the record is settled, in
/// one atomic step. On any rejection nothing moves.
///
/// The two preconditions are ledger invariants, not demands on the caller:
/// an active record's held account holds exactly the record's amount, and two
/// balances of one asset never sum past the asset's supply.
pub fn cancel_escrow(ctx: &mut CancelEscrow) -> (r: Result<(), EscrowError>)
    requires
        cancel_error(*old(ctx)) is None ==> {
            &&& old(ctx).escrow_token_account.amount == old(ctx).escrow.amount
            &&& old(ctx).initializer_deposit_token_account.amount + old(ctx).escrow.amount
                <= u64::MAX
        },
    ensures
        (*final(ctx), r) == cancel_step(*old(ctx)),
        r is Ok <==> cancel_error(*old(ctx)) is None,
        r is Err ==> *final(ctx) == *old(ctx),
        r matches Err(e) ==> cancel_error(*old(ctx)) == Some(e),
        r is Ok ==> ({
            &&& !final(ctx).escrow.is_active
            &&& final(ctx).escrow_token_account.amount == 0
            &&& final(ctx).initializer_deposit_token_account.amount
                == old(ctx).initializer_deposit_token_account.amount + old(ctx).escrow.amount
        }),
{
    if !id_eq(&ctx.initializer, &ctx.escrow.initializer) {
        return Err(EscrowError::UnauthorizedCaller);
    }
    if !ctx.escrow.is_active {
        return Err(EscrowError::InactiveRecord);
    }
    if !id_eq(&ctx.initializer_deposit_token_account.owner, &ctx.initializer) {
        return Err(EscrowError::UnauthorizedCaller);
    }
    if !id_eq(&ctx.initializer_deposit_token_account.mint, &ctx.escrow_token_account.mint) {
        return Err(EscrowError::AssetTypeMismatch);
    }
    ctx.initializer_deposit_token_account.amount =
        ctx.initializer_deposit_token_account.amount + ctx.escrow.amount;
    ctx.escrow_token_account.amount = ctx.escrow_token_account.amount - ctx.escrow.amount;
    ctx.escrow.is_active = false;
    Ok(())
}

/// The first rejection an execute call runs into, or `None` when it is
/// accepted. The claimant need not match any identity on the record:
/// condition verification is external to the protocol, which only guarantees
/// single, authorized, atomic settlement.
pub open spec fn execute_error(ctx: ExecuteEscrow) -> Option<EscrowError> {
    if !ctx.escrow.is_active {
        Some(EscrowError::InactiveRecord)
    } else if ctx.recipient_token_account.owner@ != ctx.recipient@ {
        Some(EscrowError::UnauthorizedCaller)
    } else if ctx.recipient_token_account.mint@ != ctx.escrow_token_account.mint@ {
        Some(EscrowError::AssetTypeMismatch)
    } else {
        None
    }
}

/// The state an accepted execute leaves behind: the record's full amount has
/// moved from the held account to the claimant's receive account, and the
/// record is settled.
pub open spec fn execute_post(ctx: ExecuteEscrow) -> ExecuteEscrow {
    ExecuteEscrow {
        recipient_token_account: TokenAccount {
            amount: (ctx.recipient_token_account.amount + ctx.escrow.amount) as u64,
            ..ctx.recipient_token_account
        },
        escrow: EscrowAccount { is_active: false, ..ctx.escrow },
        escrow_token_account: TokenAccount {
            amount: (ctx.escrow_token_account.amount - ctx.escrow.amount) as u64,
            ..ctx.escrow_token_account
        },
        ..ctx
    }
}

/// The atomic execute transition: the post-state together with the outcome.
pub open spec fn execute_step(ctx: ExecuteEscrow) -> (ExecuteEscrow, Result<(), EscrowError>) {
    match execute_error(ctx) {
        Some(e) => (ctx, Err(e)),
        None => (execute_post(ctx), Ok(())),
    }
}

/// Executes an active escrow for a claiming counterparty: the full held
/// amount goes to the claimant's receive account and the record is settled,
/// in one atomic step. On any rejection nothing moves.
///
/// The two preconditions are the same ledger invariants as for cancel.
pub fn execute_escrow(ctx: &mut ExecuteEscrow) -> (r: Result<(), EscrowError>)
    requires
        execute_error(*old(ctx)) is None ==> {
            &&& old(ctx).escrow_token_account.amount == old(ctx).escrow.amount
            &&& old(ctx).recipient_token_account.amount + old(ctx).escrow.amount <= u64::MAX
        },
    ensures
        (*final(ctx), r) == execute_step(*old(ctx)),
        r is Ok <==> execute_error(*old(ctx)) is None,
        r is Err ==> *final(ctx) == *old(ctx),
        r matches Err(e) ==> execute_error(*old(ctx)) == Some(e),
        r is Ok ==> ({
            &&& !final(ctx).escrow.is_active
            &&& final(ctx).escrow_token_account.amount == 0
            &&& final(ctx).recipient_token_account.amount
                == old(ctx).recipient_token_account.amount + old(ctx).escrow.amount
        }),
{
    if !ctx.escrow.is_active {
        return Err(EscrowError::InactiveRecord);
    }
    if !id_eq(&ctx.recipient_token_account.owner, &ctx.recipient) {
        return Err(EscrowError::UnauthorizedCaller);
    }
    if !id_eq(&ctx.recipient_token_account.mint, &ctx.escrow_token_account.mint) {
        return Err(EscrowError::AssetTypeMismatch);
    }
    ctx.recipient_token_account.amount =
        ctx.recipient_token_account.amount + ctx.escrow.amount;
    ctx.escrow_token_account.amount = ctx.escrow_token_account.amount - ctx.escrow.amount;
    ctx.escrow.is_active = false;
    Ok(())
}

} // verus!
