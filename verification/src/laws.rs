use vstd::prelude::*;

use crate::account::AccountId;
use crate::account::TokenAccount;
use crate::ops::CancelEscrow;
use crate::ops::ExecuteEscrow;
use crate::ops::InitializeEscrow;
use crate::ops::cancel_error;
use crate::ops::cancel_step;
use crate::ops::execute_step;
use crate::ops::open_error;
use crate::ops::open_step;
use crate::record::EscrowAccount;
use crate::record::EscrowError;
use crate::record::MAX_CONDITIONS_BYTES;

verus! {

/// A valid open call establishes the escrow: the record it returns is active
/// and carries the requested amount, the fresh held account ends holding
/// exactly that amount, and the depositor's source balance drops by exactly
/// that amount.
pub proof fn lemma_open_establishes_escrow(
    ctx: InitializeEscrow,
    amount: u64,
    conditions: String,
)
    requires
        open_error(ctx, amount, conditions@) is None,
        ctx.escrow_token_account.amount == 0,
    ensures
        ({
            let (post, r) = open_step(ctx, amount, conditions);
            &&& r is Ok
            &&& r->Ok_0.is_active
            &&& r->Ok_0.amount == amount
            &&& r->Ok_0.initializer == ctx.initializer
            &&& post.escrow_token_account.amount == amount
            &&& post.initializer_deposit_token_account.amount
                == ctx.initializer_deposit_token_account.amount - amount
        }),
{
}

/// A record is settled at most once: once it is no longer active, a later
/// cancel or execute changes nothing and is rejected — every execute, and
/// every cancel by the depositor, with `InactiveRecord`.
pub proof fn lemma_settled_record_rejects_settlement(c: CancelEscrow, e: ExecuteEscrow)
    requires
        !c.escrow.is_active,
        !e.escrow.is_active,
    ensures
        cancel_step(c).0 == c,
        cancel_step(c).1 is Err,
        c.initializer@ == c.escrow.initializer@ ==> cancel_step(c).1 == Err::<(), EscrowError>(
            EscrowError::InactiveRecord,
        ),
        execute_step(e) == (e, Err::<(), EscrowError>(EscrowError::InactiveRecord)),
{
}

/// At most one of cancel and execute ever succeeds against one record:
/// whichever settlement commits first leaves the record inactive, so the
/// other path, run afterwards against the record the first one produced, is
/// rejected with `InactiveRecord` and moves no funds.
pub proof fn lemma_at_most_one_settlement(
    c: CancelEscrow,
    e2: ExecuteEscrow,
    e: ExecuteEscrow,
    c2: CancelEscrow,
)
    requires
        cancel_step(c).1 is Ok ==> e2.escrow == cancel_step(c).0.escrow,
        execute_step(e).1 is Ok ==> {
            &&& c2.escrow == execute_step(e).0.escrow
            &&& c2.initializer@ == c2.escrow.initializer@
        },
    ensures
        cancel_step(c).1 is Ok ==> execute_step(e2) == (
            e2,
            Err::<(), EscrowError>(EscrowError::InactiveRecord),
        ),
        execute_step(e).1 is Ok ==> cancel_step(c2) == (
            c2,
            Err::<(), EscrowError>(EscrowError::InactiveRecord),
        ),
{
}

/// One attempt to settle a record: a cancel by some caller refunding to some
/// account, or an execute by some claimant paying to some account. The
/// record and its held account are the shared state such attempts race over;
/// the refund and receive accounts are each attempt's own.
pub enum SettlementAttempt {
    Cancel {
        initializer: AccountId,
        initializer_deposit_token_account: TokenAccount,
    },
    Execute {
        recipient: AccountId,
        recipient_token_account: TokenAccount,
        initializer: AccountId,
    },
}

/// Runs one settlement attempt against a record and its held account, giving
/// the record and held account it leaves behind, and the outcome.
pub open spec fn apply_attempt(
    escrow: EscrowAccount,
    held: TokenAccount,
    a: SettlementAttempt,
) -> (EscrowAccount, TokenAccount, Result<(), EscrowError>) {
    match a {
        SettlementAttempt::Cancel { initializer, initializer_deposit_token_account } => {
            let (post, r) = cancel_step(
                CancelEscrow {
                    initializer: initializer,
                    initializer_deposit_token_account: initializer_deposit_token_account,
                    escrow: escrow,
                    escrow_token_account: held,
                },
            );
            (post.escrow, post.escrow_token_account, r)
        },
        SettlementAttempt::Execute { recipient, recipient_token_account, initializer } => {
            let (post, r) = execute_step(
                ExecuteEscrow {
                    recipient: recipient,
                    recipient_token_account: recipient_token_account,
                    escrow: escrow,
                    initializer: initializer,
                    escrow_token_account: held,
                },
            );
            (post.escrow, post.escrow_token_account, r)
        },
    }
}

/// Runs a whole sequence of settlement attempts in order, giving the final
/// record and held account and how many attempts succeeded.
pub open spec fn run_attempts(
    escrow: EscrowAccount,
    held: TokenAccount,
    attempts: Seq<SettlementAttempt>,
) -> (EscrowAccount, TokenAccount, nat)
    decreases attempts.len(),
{
    if attempts.len() == 0 {
        (escrow, held, 0)
    } else {
        let (e1, h1, r) = apply_attempt(escrow, held, attempts[0]);
        let (e2, h2, oks) = run_attempts(e1, h1, attempts.drop_first());
        (
            e2,
            h2,
            oks + (
            if r is Ok {
                1nat
            } else {
                0nat
            }),
        )
    }
}

/// However cancel and execute calls race over one record, at most one of
/// them ever succeeds, in any sequence and interleaving: an already settled
/// record rejects every attempt and is left unchanged with its held account;
/// if no attempt succeeds, record and held account come out exactly as they
/// went in; and the one success leaves the record settled and — on a ledger
/// where the active record's held account holds exactly its amount — the
/// held account empty, so funds leave it exactly once.
pub proof fn lemma_settlement_exactly_once(
    escrow: EscrowAccount,
    held: TokenAccount,
    attempts: Seq<SettlementAttempt>,
)
    ensures
        ({
            let (e2, h2, oks) = run_attempts(escrow, held, attempts);
            &&& oks <= 1
            &&& !escrow.is_active ==> oks == 0 && e2 == escrow && h2 == held
            &&& oks == 0 ==> e2 == escrow && h2 == held
            &&& oks == 1 ==> !e2.is_active && (held.amount == escrow.amount ==> h2.amount == 0)
        }),
    decreases attempts.len(),
{
    if attempts.len() > 0 {
        let (e1, h1, r) = apply_attempt(escrow, held, attempts[0]);
        lemma_settlement_exactly_once(e1, h1, attempts.drop_first());
    }
}

/// Cancellation belongs to the depositor alone: a cancel whose caller is not
/// the record's depositor is rejected with `UnauthorizedCaller` and moves no
/// funds, whatever the record's status.
pub proof fn lemma_cancel_by_stranger_rejected(ctx: CancelEscrow)
    requires
        ctx.initializer@ != ctx.escrow.initializer@,
    ensures
        cancel_step(ctx) == (ctx, Err::<(), EscrowError>(EscrowError::UnauthorizedCaller)),
{
}

/// Settlement moves exactly the record's original amount, never more or
/// less: on a ledger state satisfying the held-account invariant, a
/// successful cancel or execute leaves the held account at zero, raises the
/// receiving account by exactly the record's amount, and conserves the sum
/// of the two balances it touches.
pub proof fn lemma_settlement_moves_exact_amount(c: CancelEscrow, e: ExecuteEscrow)
    requires
        c.escrow.is_active ==> c.escrow_token_account.amount == c.escrow.amount,
        c.initializer_deposit_token_account.amount + c.escrow.amount <= u64::MAX,
        e.escrow.is_active ==> e.escrow_token_account.amount == e.escrow.amount,
        e.recipient_token_account.amount + e.escrow.amount <= u64::MAX,
    ensures
        cancel_step(c).1 is Ok ==> ({
            let post = cancel_step(c).0;
            &&& post.escrow_token_account.amount == 0
            &&& post.initializer_deposit_token_account.amount
                == c.initializer_deposit_token_account.amount + c.escrow.amount
            &&& post.escrow_token_account.amount + post.initializer_deposit_token_account.amount
                == c.escrow_token_account.amount + c.initializer_deposit_token_account.amount
        }),
        execute_step(e).1 is Ok ==> ({
            let post = execute_step(e).0;
            &&& post.escrow_token_account.amount == 0
            &&& post.recipient_token_account.amount
                == e.recipient_token_account.amount + e.escrow.amount
            &&& post.escrow_token_account.amount + post.recipient_token_account.amount
                == e.escrow_token_account.amount + e.recipient_token_account.amount
        }),
{
}

/// Round trip: an accepted open followed by the depositor's cancel of the
/// record it created restores the depositor's source balance exactly and
/// empties the held account; the pair of calls leaks nothing.
pub proof fn lemma_open_then_cancel_restores_deposit(
    ctx: InitializeEscrow,
    amount: u64,
    conditions: String,
)
    requires
        open_error(ctx, amount, conditions@) is None,
        ctx.escrow_token_account.amount == 0,
    ensures
        ({
            let (post, r) = open_step(ctx, amount, conditions);
            let cctx = CancelEscrow {
                initializer: ctx.initializer,
                initializer_deposit_token_account: post.initializer_deposit_token_account,
                escrow: r->Ok_0,
                escrow_token_account: post.escrow_token_account,
            };
            &&& cancel_error(cctx) is None
            &&& cancel_step(cctx).1 is Ok
            &&& cancel_step(cctx).0.initializer_deposit_token_account.amount
                == ctx.initializer_deposit_token_account.amount
            &&& cancel_step(cctx).0.escrow_token_account.amount == 0
        }),
{
}

/// An accepted open followed by an execute of the record it created pays the
/// claimant exactly the escrowed amount, empties the held account, and never
/// touches the depositor's source account again: the pair's net effect is
/// minus the amount for the depositor and plus the amount for the claimant.
pub proof fn lemma_open_then_execute_pays_exact(
    ctx: InitializeEscrow,
    amount: u64,
    conditions: String,
    recipient: AccountId,
    recipient_token_account: TokenAccount,
)
    requires
        open_error(ctx, amount, conditions@) is None,
        ctx.escrow_token_account.amount == 0,
        recipient_token_account.owner@ == recipient@,
        recipient_token_account.mint@ == ctx.escrow_token_account.mint@,
        recipient_token_account.amount + amount <= u64::MAX,
    ensures
        ({
            let (post, r) = open_step(ctx, amount, conditions);
            let ectx = ExecuteEscrow {
                recipient: recipient,
                recipient_token_account: recipient_token_account,
                escrow: r->Ok_0,
                initializer: ctx.initializer,
                escrow_token_account: post.escrow_token_account,
            };
            &&& execute_step(ectx).1 is Ok
            &&& execute_step(ectx).0.recipient_token_account.amount
                == recipient_token_account.amount + amount
            &&& execute_step(ectx).0.escrow_token_account.amount == 0
            &&& post.initializer_deposit_token_account.amount
                == ctx.initializer_deposit_token_account.amount - amount
        }),
{
}

/// Boundary rejections of open: a zero amount is always turned away with
/// `InvalidInput`, and an otherwise valid call asking for more than the
/// depositor's balance with `InsufficientFunds`; neither creates a record or
/// moves funds.
pub proof fn lemma_open_boundary(ctx: InitializeEscrow, amount: u64, conditions: String)
    ensures
        open_step(ctx, 0, conditions) == (
            ctx,
            Err::<EscrowAccount, EscrowError>(EscrowError::InvalidInput),
        ),
        ({
            &&& vstd::utf8::encode_utf8(conditions@).len() <= MAX_CONDITIONS_BYTES
            &&& amount > 0
            &&& ctx.initializer_deposit_token_account.owner@ == ctx.initializer@
            &&& ctx.initializer_receive_token_account.owner@ == ctx.initializer@
            &&& ctx.escrow_token_account.mint@ == ctx.initializer_deposit_token_account.mint@
            &&& amount > ctx.initializer_deposit_token_account.amount
        }) ==> open_step(ctx, amount, conditions) == (
            ctx,
            Err::<EscrowAccount, EscrowError>(EscrowError::InsufficientFunds),
        ),
{
}

} // verus!
