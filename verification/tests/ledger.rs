use tollbooth::error::StoreError;
use tollbooth::ledger::{
    classify_insert_failure, parse_status, resolve_duplicate, session_from_columns, status_str,
    ConsumeResult, InsertFailure, SessionState, SessionStatus,
};
use tollbooth::types::{PaymentReceipt, ProtocolKind};

fn active_session(id: &str, deposit: u64) -> SessionState {
    SessionState {
        session_id: id.into(),
        bearer_hash: "hash".into(),
        deposit_amount: deposit,
        spent: 0,
        refund_address: "addr".into(),
        mint: "mint".into(),
        decimals: 6,
        status: SessionStatus::Active,
        refund_signature: None,
        created_at: 1000,
        updated_at: 1000,
    }
}

fn dummy_receipt(sig: &str) -> PaymentReceipt {
    PaymentReceipt {
        protocol: ProtocolKind::Mpp,
        signature: sig.to_string(),
        amount: "1000".to_string(),
        ui_amount: "0.001".to_string(),
        mint: "mint1".to_string(),
        payer: "payer1".to_string(),
        recipient: "recipient1".to_string(),
        timestamp: 1000,
        session_id: None,
    }
}

#[test]
fn ledger_debit_with_sufficient_balance() {
    let s = active_session("s1", 100_000);
    let s = s.debit(30_000, 2000, "hash").unwrap();
    assert_eq!(s.spent, 30_000);
    assert_eq!(s.deposit_amount, 100_000);
    assert_eq!(s.updated_at, 2000);
    let s = s.debit(70_000, 3000, "hash").unwrap();
    assert_eq!(s.spent, 100_000);
    assert_eq!(s.remaining(), 0);
}

#[test]
fn ledger_debit_refused_cases() {
    let s = active_session("s1", 100_000);
    assert!(s.debit(100_001, 2000, "hash").is_none());
    assert!(s.debit(1, 2000, "other-hash").is_none());
    let mut closed = active_session("s1", 100_000);
    closed.status = SessionStatus::Closed;
    assert!(closed.debit(1_000, 2000, "hash").is_none());
}

#[test]
fn ledger_debit_after_partial_spend() {
    let s = active_session("s1", 100_000).debit(60_000, 2000, "hash").unwrap();
    assert!(s.debit(50_000, 3000, "hash").is_none());
    let s = s.debit(40_000, 4000, "hash").unwrap();
    assert_eq!(s.spent, 100_000);
}

#[test]
fn ledger_credit_only_active() {
    let s = active_session("s1", 100_000).credit(50_000, 2000).unwrap();
    assert_eq!(s.deposit_amount, 150_000);
    let mut closing = active_session("s1", 100_000);
    closing.status = SessionStatus::Closing;
    assert!(closing.credit(50_000, 2000).is_none());
}

#[test]
fn ledger_close_lifecycle() {
    let s = active_session("s1", 100_000);
    let closing = s.begin_close(2000).unwrap();
    assert_eq!(closing.status, SessionStatus::Closing);
    assert!(closing.begin_close(3000).is_none());
    assert!(s.finalize_close(None, 3000).is_none());
    let closed = closing.finalize_close(Some("refund-sig".into()), 3000).unwrap();
    assert_eq!(closed.status, SessionStatus::Closed);
    assert_eq!(closed.refund_signature.as_deref(), Some("refund-sig"));
    assert!(closed.finalize_close(None, 4000).is_none());
    assert!(closed.debit(1, 4000, "hash").is_none());
}

#[test]
fn ledger_update_keeps_identity_columns() {
    let stored = active_session("s2", 100_000);
    let mut new = stored.clone();
    new.spent = 10_000;
    new.updated_at = 2000;
    new.mint = "other-mint".into();
    new.created_at = 9;
    let updated = stored.apply_update(&new);
    assert_eq!(updated.spent, 10_000);
    assert_eq!(updated.updated_at, 2000);
    assert_eq!(updated.mint, "mint");
    assert_eq!(updated.created_at, 1000);
}

#[test]
fn status_text_round_trip() {
    for st in [SessionStatus::Active, SessionStatus::Closing, SessionStatus::Closed] {
        assert_eq!(parse_status(status_str(st)).unwrap(), st);
    }
    assert_eq!(
        parse_status("paused"),
        Err(StoreError::Database("unknown status: paused".into()))
    );
}

#[test]
fn row_columns_to_session() {
    let s = session_from_columns(
        "stuck".into(),
        "abc".into(),
        100_000,
        50_000,
        "addr".into(),
        "mint".into(),
        6,
        "closing",
        None,
        1000,
        1000,
    )
    .unwrap();
    assert_eq!(s.status, SessionStatus::Closing);
    assert_eq!(s.deposit_amount, 100_000);
    assert_eq!(s.spent, 50_000);
    assert!(session_from_columns(
        "x".into(),
        "h".into(),
        0,
        0,
        "a".into(),
        "m".into(),
        6,
        "weird",
        None,
        0,
        0
    )
    .is_err());
}

#[test]
fn duplicate_consume_returns_cached_receipt() {
    assert!(matches!(
        classify_insert_failure("UNIQUE constraint failed: consumed_signatures.signature"),
        InsertFailure::Duplicate
    ));
    match classify_insert_failure("disk I/O error") {
        InsertFailure::Other(StoreError::Database(m)) => assert_eq!(m, "disk I/O error"),
        _ => panic!("expected a database error"),
    }
    let cached = dummy_receipt("sig123");
    assert_eq!(
        resolve_duplicate("sig123", Some(cached.clone())),
        Ok(ConsumeResult::AlreadyCached(cached))
    );
    assert_eq!(
        resolve_duplicate("sig123", None),
        Err(StoreError::Conflict("signature already consumed: sig123".into()))
    );
}

fn owed(rows: &[SessionState]) -> u64 {
    rows.iter()
        .filter(|s| s.status != SessionStatus::Closed)
        .map(|s| s.deposit_amount - s.spent)
        .sum()
}

#[test]
fn ledger_transitions_move_liabilities_by_the_money_moved() {
    let mut rows = vec![active_session("a", 5_000), active_session("b", 7_000)];
    assert_eq!(owed(&rows), 12_000);
    rows[0] = rows[0].debit(1_500, 1001, "hash").unwrap();
    assert_eq!(owed(&rows), 10_500);
    rows[1] = rows[1].credit(3_000, 1002).unwrap();
    assert_eq!(owed(&rows), 13_500);
    rows[1] = rows[1].begin_close(1003).unwrap();
    assert_eq!(owed(&rows), 13_500);
    rows[1] = rows[1].finalize_close(Some("refund".into()), 1004).unwrap();
    assert_eq!(owed(&rows), 3_500);
}
