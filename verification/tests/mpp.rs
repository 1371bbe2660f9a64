use solana_pubkey::Pubkey;
use tollbooth::amount::TokenAmount;
use tollbooth::error::PaymentError;
use tollbooth::gate::{challenge_deposit, route_price_raw, session_cost, session_event_type, session_metric};
use tollbooth::ledger::{SessionState, SessionStatus};
use tollbooth::mpp::{
    after_refund_check, bearer_receipt, check_bearer, check_cached_top_up, check_minimum,
    check_platform_fee, close_plan, close_receipt, debit_refusal, recovery_start, transfer_receipt,
    ChallengeTerms, ClosePlan, MppSessionCredential, RecoveryAction, RecoveryStart, RefundStatus,
};
use tollbooth::types::{PaymentReceipt, ProtocolKind};

fn session(refund: &Pubkey, mint: &Pubkey) -> SessionState {
    SessionState {
        session_id: "sess-1".into(),
        bearer_hash: "h".into(),
        deposit_amount: 5_000_000,
        spent: 2_000_000,
        refund_address: refund.to_string(),
        mint: mint.to_string(),
        decimals: 6,
        status: SessionStatus::Closing,
        refund_signature: None,
        created_at: 1000,
        updated_at: 1500,
    }
}

#[test]
fn charge_challenge_fields() {
    let recipient = Pubkey::new_unique();
    let mint = Pubkey::new_unique();
    let fee_payer = Pubkey::new_unique();
    let terms = ChallengeTerms {
        recipient: recipient.to_bytes(),
        mint: mint.to_bytes(),
        decimals: 6,
        relay_url: "http://0.0.0.0:3402/relay".into(),
        relayer_pubkey: Some(fee_payer.to_bytes()),
        platform_fee_recipient: None,
    };
    let c = terms.challenge(&TokenAmount::new(1_000_000, mint.to_bytes(), 6), 0);
    assert_eq!(c.amount, "1000000");
    assert_eq!(c.ui_amount, "1");
    assert_eq!(c.recipient, recipient.to_string());
    assert_eq!(c.mint, mint.to_string());
    assert_eq!(c.fee_payer, Some(fee_payer.to_string()));
    assert_eq!(c.relay_url, "http://0.0.0.0:3402/relay");
    assert!(c.platform_fee.is_none());

    let fee_rcpt = Pubkey::new_unique();
    let terms = ChallengeTerms { platform_fee_recipient: Some(fee_rcpt.to_bytes()), ..terms };
    let s = terms.session_challenge(&TokenAmount::new(100_000, mint.to_bytes(), 6), 2_500);
    assert_eq!(s.deposit, "100000");
    assert_eq!(s.deposit_ui_amount, "0.1");
    assert_eq!(s.platform_fee.as_deref(), Some("2500"));
    assert_eq!(s.platform_fee_ui_amount.as_deref(), Some("0.0025"));
    assert_eq!(s.platform_fee_recipient, Some(fee_rcpt.to_string()));
}

#[test]
fn minimum_and_platform_fee_checks() {
    assert_eq!(
        check_minimum(1_000, 999),
        Err(PaymentError::InsufficientBalance { need: 1_000, have: 999 })
    );
    assert!(check_minimum(0, 0).is_ok());
    assert!(check_minimum(1_000, 1_000).is_ok());
    assert_eq!(
        check_platform_fee(10, 9),
        Err(PaymentError::VerificationFailed("platform fee insufficient: expected 10, got 9".into()))
    );
    assert!(check_platform_fee(10, 10).is_ok());
}

#[test]
fn receipts() {
    let mint = Pubkey::new_unique();
    let payer = Pubkey::new_unique();
    let recipient = Pubkey::new_unique();
    let r = transfer_receipt("sig", 1_500_000, 6, &mint.to_bytes(), &payer.to_bytes(), &recipient.to_bytes(), 7, None);
    assert_eq!(r.amount, "1500000");
    assert_eq!(r.ui_amount, "1.5");
    assert_eq!(r.payer, payer.to_string());
    assert_eq!(r.protocol, ProtocolKind::Mpp);

    let s = session(&payer, &mint);
    let b = bearer_receipt("sess-1", &s, 1_000, 6, &recipient.to_bytes());
    assert_eq!(b.signature, "session:sess-1");
    assert_eq!(b.amount, "1000");
    assert_eq!(b.ui_amount, "0.001");
    assert_eq!(b.timestamp, 1500);
    assert_eq!(b.session_id.as_deref(), Some("sess-1"));

    let c = close_receipt("sess-1", &s, None, 6, &recipient.to_bytes());
    assert_eq!(c.signature, "session-close:sess-1");
    assert_eq!(c.amount, "3000000");
    assert_eq!(c.ui_amount, "3");
    let c = close_receipt("sess-1", &s, Some("refund".into()), 6, &recipient.to_bytes());
    assert_eq!(c.signature, "refund");
}

#[test]
fn bearer_and_debit_failures() {
    let p = Pubkey::new_unique();
    let mut s = session(&p, &p);
    assert_eq!(
        check_bearer("sess-1", None, "h"),
        Err(PaymentError::SessionNotFound("sess-1".into()))
    );
    assert_eq!(check_bearer("sess-1", Some(s.clone()), "x"), Err(PaymentError::InvalidBearer));
    assert_eq!(check_bearer("sess-1", Some(s.clone()), "h"), Ok(s.clone()));

    assert_eq!(debit_refusal("sess-1", &None, "h", 5), PaymentError::SessionNotFound("sess-1".into()));
    assert_eq!(debit_refusal("sess-1", &Some(s.clone()), "x", 5), PaymentError::InvalidBearer);
    assert_eq!(debit_refusal("sess-1", &Some(s.clone()), "h", 5), PaymentError::SessionClosed("sess-1".into()));
    s.status = SessionStatus::Active;
    assert_eq!(
        debit_refusal("sess-1", &Some(s.clone()), "h", 5_000_000),
        PaymentError::InsufficientBalance { need: 5_000_000, have: 3_000_000 }
    );
}

#[test]
fn top_up_replay_needs_same_session() {
    let receipt = PaymentReceipt {
        protocol: ProtocolKind::Mpp,
        signature: "sig".into(),
        amount: "1".into(),
        ui_amount: "0.000001".into(),
        mint: "m".into(),
        payer: "p".into(),
        recipient: "r".into(),
        timestamp: 0,
        session_id: Some("sess-A".into()),
    };
    assert_eq!(check_cached_top_up("sess-A", receipt.clone()), Ok(receipt.clone()));
    assert_eq!(
        check_cached_top_up("sess-B", receipt),
        Err(PaymentError::ReplayDetected("signature already used for a different session".into()))
    );
}

#[test]
fn close_and_recovery_plans() {
    let refund = Pubkey::new_unique();
    let mint = Pubkey::new_unique();
    let s = session(&refund, &mint);
    assert_eq!(
        close_plan(&s).unwrap(),
        ClosePlan::Refund { amount: 3_000_000, to: refund.to_bytes() }
    );
    let mut spent = s.clone();
    spent.spent = spent.deposit_amount;
    assert_eq!(close_plan(&spent).unwrap(), ClosePlan::NoRefund);
    let mut bad = s.clone();
    bad.refund_address = "??".into();
    assert!(matches!(close_plan(&bad), Err(PaymentError::RelayError(_))));

    assert_eq!(
        recovery_start(&s).unwrap(),
        RecoveryStart::SendRefund { mint: mint.to_bytes(), refund_to: refund.to_bytes(), amount: 3_000_000 }
    );
    let sig = solana_signature::Signature::from([3u8; 64]).to_string();
    let mut sent = s.clone();
    sent.refund_signature = Some(sig.clone());
    assert!(matches!(recovery_start(&sent).unwrap(), RecoveryStart::CheckRefund { .. }));
    assert_eq!(after_refund_check(&sent, RefundStatus::Confirmed), RecoveryAction::Finalize(Some(sig)));
    assert_eq!(after_refund_check(&sent, RefundStatus::NotConfirmed), RecoveryAction::Resend(3_000_000));
    assert_eq!(after_refund_check(&sent, RefundStatus::Unknown), RecoveryAction::Skip);
    let mut bad_mint = s.clone();
    bad_mint.mint = "0".into();
    assert!(matches!(recovery_start(&bad_mint), Err(PaymentError::RpcError(t)) if t.starts_with("invalid session mint: ")));
}

#[test]
fn gate_prices_and_events() {
    let mint = Pubkey::new_unique().to_bytes();
    let open = MppSessionCredential::Open { signature: "s".into(), refund_address: "r".into(), bearer: "b".into() };
    let bearer = MppSessionCredential::Bearer { session_id: "x".into(), bearer: "b".into() };
    let close = MppSessionCredential::Close { session_id: "x".into(), bearer: "b".into() };
    assert_eq!(session_cost(&open, &Some("0.1".into()), mint, 6, 10_000), 100_000);
    assert_eq!(session_cost(&open, &Some("junk".into()), mint, 6, 10_000), 10_000);
    assert_eq!(session_cost(&bearer, &Some("0.1".into()), mint, 6, 10_000), 10_000);
    assert_eq!(challenge_deposit(&Some("junk".into()), mint, 6, 10_000).raw, 0);
    assert_eq!(challenge_deposit(&None, mint, 6, 10_000).raw, 10_000);
    assert_eq!(route_price_raw("0.001", mint, 6), 1_000);
    assert_eq!(route_price_raw("free", mint, 6), 0);
    assert_eq!(session_event_type(&open), "session.opened");
    assert_eq!(session_event_type(&close), "session.closed");
    assert_eq!(session_event_type(&bearer), "payment.completed");
    assert_eq!(session_metric(&bearer), "payments.mpp.session.bearer");
}
