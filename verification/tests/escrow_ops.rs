use escrow::AccountId;
use escrow::CancelEscrow;
use escrow::EscrowAccount;
use escrow::EscrowError;
use escrow::ExecuteEscrow;
use escrow::InitializeEscrow;
use escrow::TokenAccount;
use escrow::cancel_escrow;
use escrow::execute_escrow;
use escrow::initialize_escrow;

fn id(n: u8) -> AccountId {
    AccountId { bytes: [n; 32] }
}

fn acct(key: u8, owner: u8, mint: u8, amount: u64) -> TokenAccount {
    TokenAccount {
        key: id(key),
        owner: id(owner),
        mint: id(mint),
        amount,
    }
}

/// An open context for depositor 1 with a 1000-unit source account of mint 9
/// and a fresh held account.
fn open_ctx() -> InitializeEscrow {
    InitializeEscrow {
        initializer: id(1),
        initializer_deposit_token_account: acct(10, 1, 9, 1000),
        initializer_receive_token_account: acct(11, 1, 8, 0),
        escrow_token_account: acct(12, 7, 9, 0),
    }
}

fn open(amount: u64, conditions: &str) -> (InitializeEscrow, EscrowAccount) {
    let mut ctx = open_ctx();
    let rec = initialize_escrow(&mut ctx, amount, conditions.to_string()).unwrap();
    (ctx, rec)
}

#[test]
fn open_creates_active_record() {
    let mut ctx = open_ctx();
    let rec = initialize_escrow(&mut ctx, 500, "X".to_string()).unwrap();
    assert!(rec.is_active);
    assert_eq!(rec.amount, 500);
    assert_eq!(rec.initializer, id(1));
    assert_eq!(rec.initializer_deposit_token_account, id(10));
    assert_eq!(rec.initializer_receive_token_account, id(11));
    assert_eq!(rec.conditions, "X");
    assert_eq!(ctx.escrow_token_account.amount, 500);
    assert_eq!(ctx.initializer_deposit_token_account.amount, 500);
}

#[test]
fn open_zero_amount_rejected() {
    let mut ctx = open_ctx();
    let before = ctx;
    let r = initialize_escrow(&mut ctx, 0, "X".to_string());
    assert_eq!(r, Err(EscrowError::InvalidInput));
    assert_eq!(ctx, before);
}

#[test]
fn open_over_balance_rejected() {
    let mut ctx = open_ctx();
    let before = ctx;
    let r = initialize_escrow(&mut ctx, 1001, "X".to_string());
    assert_eq!(r, Err(EscrowError::InsufficientFunds));
    assert_eq!(ctx, before);
}

#[test]
fn open_full_balance_accepted() {
    let mut ctx = open_ctx();
    let r = initialize_escrow(&mut ctx, 1000, "X".to_string());
    assert!(r.is_ok());
    assert_eq!(ctx.initializer_deposit_token_account.amount, 0);
    assert_eq!(ctx.escrow_token_account.amount, 1000);
}

#[test]
fn open_oversized_conditions_rejected() {
    let mut ctx = open_ctx();
    let before = ctx;
    let long = "c".repeat(201);
    let r = initialize_escrow(&mut ctx, 500, long);
    assert_eq!(r, Err(EscrowError::InvalidInput));
    assert_eq!(ctx, before);

    let longest = "c".repeat(200);
    assert!(initialize_escrow(&mut ctx, 500, longest).is_ok());
}

#[test]
fn open_extremes_accepted() {
    // empty condition text is allowed: conditions are opaque, only bounded
    let mut ctx = open_ctx();
    assert!(initialize_escrow(&mut ctx, 1, "".to_string()).is_ok());

    // the largest representable amount round-trips through open and cancel
    let mut ctx = open_ctx();
    ctx.initializer_deposit_token_account.amount = u64::MAX;
    let rec = initialize_escrow(&mut ctx, u64::MAX, "X".to_string()).unwrap();
    assert_eq!(ctx.initializer_deposit_token_account.amount, 0);
    assert_eq!(ctx.escrow_token_account.amount, u64::MAX);
    let mut cctx = CancelEscrow {
        initializer: id(1),
        initializer_deposit_token_account: ctx.initializer_deposit_token_account,
        escrow: rec,
        escrow_token_account: ctx.escrow_token_account,
    };
    assert_eq!(cancel_escrow(&mut cctx), Ok(()));
    assert_eq!(cctx.initializer_deposit_token_account.amount, u64::MAX);
}

#[test]
fn open_foreign_source_account_rejected() {
    let mut ctx = open_ctx();
    ctx.initializer_deposit_token_account.owner = id(2);
    let before = ctx;
    let r = initialize_escrow(&mut ctx, 500, "X".to_string());
    assert_eq!(r, Err(EscrowError::UnauthorizedCaller));
    assert_eq!(ctx, before);
}

#[test]
fn open_mint_mismatch_rejected() {
    let mut ctx = open_ctx();
    ctx.escrow_token_account.mint = id(8);
    let before = ctx;
    let r = initialize_escrow(&mut ctx, 500, "X".to_string());
    assert_eq!(r, Err(EscrowError::AssetTypeMismatch));
    assert_eq!(ctx, before);
}

#[test]
fn cancel_refunds_depositor() {
    let (post, rec) = open(1000, "X");
    let mut cctx = CancelEscrow {
        initializer: id(1),
        initializer_deposit_token_account: post.initializer_deposit_token_account,
        escrow: rec,
        escrow_token_account: post.escrow_token_account,
    };
    assert_eq!(cctx.initializer_deposit_token_account.amount, 0);
    let r = cancel_escrow(&mut cctx);
    assert_eq!(r, Ok(()));
    // the depositor's balance is back to its pre-open value: zero net change
    assert_eq!(cctx.initializer_deposit_token_account.amount, 1000);
    assert_eq!(cctx.escrow_token_account.amount, 0);
    assert!(!cctx.escrow.is_active);
}

#[test]
fn cancel_by_stranger_rejected() {
    let (post, rec) = open(1000, "X");
    let mut cctx = CancelEscrow {
        initializer: id(2),
        initializer_deposit_token_account: acct(20, 2, 9, 50),
        escrow: rec,
        escrow_token_account: post.escrow_token_account,
    };
    let before = cctx.clone();
    let r = cancel_escrow(&mut cctx);
    assert_eq!(r, Err(EscrowError::UnauthorizedCaller));
    assert_eq!(cctx, before);

    // rejected with the same error even once the record is settled
    cctx.escrow.is_active = false;
    let before = cctx.clone();
    let r = cancel_escrow(&mut cctx);
    assert_eq!(r, Err(EscrowError::UnauthorizedCaller));
    assert_eq!(cctx, before);
}

#[test]
fn cancel_mint_mismatch_rejected() {
    let (post, rec) = open(1000, "X");
    let mut cctx = CancelEscrow {
        initializer: id(1),
        initializer_deposit_token_account: acct(21, 1, 8, 0),
        escrow: rec,
        escrow_token_account: post.escrow_token_account,
    };
    let before = cctx.clone();
    let r = cancel_escrow(&mut cctx);
    assert_eq!(r, Err(EscrowError::AssetTypeMismatch));
    assert_eq!(cctx, before);
}

#[test]
fn second_settlement_rejected() {
    let (post, rec) = open(1000, "X");
    let mut cctx = CancelEscrow {
        initializer: id(1),
        initializer_deposit_token_account: post.initializer_deposit_token_account,
        escrow: rec,
        escrow_token_account: post.escrow_token_account,
    };
    assert_eq!(cancel_escrow(&mut cctx), Ok(()));

    // a second cancel by the depositor moves nothing
    let before = cctx.clone();
    assert_eq!(cancel_escrow(&mut cctx), Err(EscrowError::InactiveRecord));
    assert_eq!(cctx, before);

    // an execute against the settled record moves nothing either
    let mut ectx = ExecuteEscrow {
        recipient: id(2),
        recipient_token_account: acct(22, 2, 9, 0),
        escrow: cctx.escrow.clone(),
        initializer: id(1),
        escrow_token_account: cctx.escrow_token_account,
    };
    let before = ectx.clone();
    assert_eq!(execute_escrow(&mut ectx), Err(EscrowError::InactiveRecord));
    assert_eq!(ectx, before);
}

#[test]
fn settled_record_rejected_before_account_checks() {
    let (post, rec) = open(1000, "X");
    let mut cctx = CancelEscrow {
        initializer: id(1),
        initializer_deposit_token_account: post.initializer_deposit_token_account,
        escrow: rec,
        escrow_token_account: post.escrow_token_account,
    };
    assert_eq!(cancel_escrow(&mut cctx), Ok(()));

    // on a settled record the status decides, even with a foreign account
    let mut ectx = ExecuteEscrow {
        recipient: id(2),
        recipient_token_account: acct(22, 3, 8, 0),
        escrow: cctx.escrow.clone(),
        initializer: id(1),
        escrow_token_account: cctx.escrow_token_account,
    };
    assert_eq!(execute_escrow(&mut ectx), Err(EscrowError::InactiveRecord));

    // but a caller who is not the depositor is turned away first
    cctx.initializer = id(2);
    assert_eq!(cancel_escrow(&mut cctx), Err(EscrowError::UnauthorizedCaller));
}

#[test]
fn execute_pays_counterparty() {
    // depositor A (id 1) opens an escrow of 500; counterparty B (id 2) executes
    let mut octx = open_ctx();
    let rec = initialize_escrow(&mut octx, 500, "deliverable".to_string()).unwrap();
    let mut ectx = ExecuteEscrow {
        recipient: id(2),
        recipient_token_account: acct(22, 2, 9, 40),
        escrow: rec,
        initializer: id(1),
        escrow_token_account: octx.escrow_token_account,
    };
    let r = execute_escrow(&mut ectx);
    assert_eq!(r, Ok(()));
    assert_eq!(ectx.recipient_token_account.amount, 540);
    assert_eq!(ectx.escrow_token_account.amount, 0);
    assert!(!ectx.escrow.is_active);
    // the depositor's source account was debited once, at open, and no more
    assert_eq!(octx.initializer_deposit_token_account.amount, 500);

    // A's later cancel hits the settled record and fails
    let mut cctx = CancelEscrow {
        initializer: id(1),
        initializer_deposit_token_account: octx.initializer_deposit_token_account,
        escrow: ectx.escrow.clone(),
        escrow_token_account: ectx.escrow_token_account,
    };
    let before = cctx.clone();
    assert_eq!(cancel_escrow(&mut cctx), Err(EscrowError::InactiveRecord));
    assert_eq!(cctx, before);
}

#[test]
fn execute_foreign_receive_account_rejected() {
    let (post, rec) = open(500, "X");
    let mut ectx = ExecuteEscrow {
        recipient: id(2),
        recipient_token_account: acct(22, 3, 9, 0),
        escrow: rec,
        initializer: id(1),
        escrow_token_account: post.escrow_token_account,
    };
    let before = ectx.clone();
    assert_eq!(execute_escrow(&mut ectx), Err(EscrowError::UnauthorizedCaller));
    assert_eq!(ectx, before);
}

#[test]
fn execute_mint_mismatch_rejected() {
    let (post, rec) = open(500, "X");
    let mut ectx = ExecuteEscrow {
        recipient: id(2),
        recipient_token_account: acct(22, 2, 8, 0),
        escrow: rec,
        initializer: id(1),
        escrow_token_account: post.escrow_token_account,
    };
    let before = ectx.clone();
    assert_eq!(execute_escrow(&mut ectx), Err(EscrowError::AssetTypeMismatch));
    assert_eq!(ectx, before);
}
