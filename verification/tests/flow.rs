use solana_pubkey::Pubkey;
use tollbooth::error::PaymentError;
use tollbooth::flow::{
    after_debit, BearerAction, CloseAction, CloseEvent, CloseFlow, DepositAction, DepositEvent,
    DepositFlow, DepositKind, DepositStage, RecoveryEvent, RecoveryFlow, RecoveryStep,
};
use tollbooth::ledger::{ConsumeResult, SessionState, SessionStatus};
use tollbooth::mpp::RefundStatus;
use tollbooth::transfer::VerifiedTransfer;
use tollbooth::types::{PaymentReceipt, ProtocolKind};

struct Parties {
    recipient: Pubkey,
    mint: Pubkey,
    payer: Pubkey,
}

fn parties() -> Parties {
    Parties { recipient: Pubkey::new_unique(), mint: Pubkey::new_unique(), payer: Pubkey::new_unique() }
}

fn flow(p: &Parties, kind: DepositKind) -> (DepositFlow, DepositAction) {
    DepositFlow::new(kind, "sig-1".into(), p.recipient.to_bytes(), p.mint.to_bytes(), 6)
}

fn verified(p: &Parties, amount: u64) -> VerifiedTransfer {
    VerifiedTransfer {
        amount,
        payer: p.payer.to_bytes(),
        recipient: p.recipient.to_bytes(),
        mint: p.mint.to_bytes(),
    }
}

fn cached(session_id: Option<&str>) -> PaymentReceipt {
    PaymentReceipt {
        protocol: ProtocolKind::Mpp,
        signature: "sig-1".into(),
        amount: "7".into(),
        ui_amount: "0.000007".into(),
        mint: "m".into(),
        payer: "p".into(),
        recipient: "r".into(),
        timestamp: 1,
        session_id: session_id.map(str::to_string),
    }
}

fn consume_receipt(a: &DepositAction) -> PaymentReceipt {
    match a {
        DepositAction::Consume { receipt, .. } => receipt.clone(),
        other => panic!("expected a consume, got {other:?}"),
    }
}

#[test]
fn charge_flow_consumes_then_answers() {
    let p = parties();
    let (f, a) = flow(&p, DepositKind::Charge { min_amount: 1_000 });
    assert_eq!(a, DepositAction::LookupConsumed);
    let (f, a) = f.step(DepositEvent::Looked(None));
    assert_eq!(a, DepositAction::VerifyTransfer);
    let (f, a) = f.step(DepositEvent::Verified(Ok(verified(&p, 1_500)), 42));
    match &a {
        DepositAction::Consume { protocol, amount_text, payer, receipt } => {
            assert_eq!(*protocol, "mpp-charge");
            assert_eq!(amount_text, "1500");
            assert_eq!(payer, &p.payer.to_string());
            assert_eq!(receipt.signature, "sig-1");
            assert_eq!(receipt.amount, "1500");
            assert_eq!(receipt.ui_amount, "0.0015");
            assert_eq!(receipt.recipient, p.recipient.to_string());
            assert_eq!(receipt.timestamp, 42);
            assert_eq!(receipt.session_id, None);
        }
        other => panic!("expected a consume, got {other:?}"),
    }
    assert_eq!(f.stage, DepositStage::Consume { amount: 1_500, now: 42 });
    let receipt = consume_receipt(&a);
    let (f, a) = f.step(DepositEvent::Consumed(ConsumeResult::Consumed(receipt.clone())));
    assert_eq!(a, DepositAction::Finish(Ok(receipt)));
    assert_eq!(f.stage, DepositStage::Done);
}

#[test]
fn cached_receipt_answers_at_once() {
    let p = parties();
    let (f, _) = flow(&p, DepositKind::Charge { min_amount: 0 });
    let (f, a) = f.step(DepositEvent::Looked(Some(cached(None))));
    assert_eq!(a, DepositAction::Finish(Ok(cached(None))));
    assert_eq!(f.stage, DepositStage::Done);
}

#[test]
fn charge_below_minimum_is_refused_before_consuming() {
    let p = parties();
    let (f, _) = flow(&p, DepositKind::Charge { min_amount: 1_000 });
    let (f, _) = f.step(DepositEvent::Looked(None));
    let (f, a) = f.step(DepositEvent::Verified(Ok(verified(&p, 999)), 5));
    assert_eq!(a, DepositAction::Finish(Err(PaymentError::InsufficientBalance { need: 1_000, have: 999 })));
    assert_eq!(f.stage, DepositStage::Done);
}

#[test]
fn failed_transfer_check_ends_the_flow() {
    let p = parties();
    let (f, _) = flow(&p, DepositKind::Charge { min_amount: 0 });
    let (f, _) = f.step(DepositEvent::Looked(None));
    let err = PaymentError::VerificationFailed("transaction failed on-chain".into());
    let (_, a) = f.step(DepositEvent::Verified(Err(err.clone()), 5));
    assert_eq!(a, DepositAction::Finish(Err(err)));
}

#[test]
fn lost_consume_returns_the_winner_receipt() {
    let p = parties();
    let kind = DepositKind::Open {
        session_id: "s-1".into(),
        bearer_hash: "bh".into(),
        refund_address: p.payer.to_string(),
        min_deposit: 0,
    };
    let (f, _) = flow(&p, kind);
    let (f, _) = f.step(DepositEvent::Looked(None));
    let (f, _) = f.step(DepositEvent::Verified(Ok(verified(&p, 10)), 5));
    let winner = cached(Some("s-0"));
    let (_, a) = f.step(DepositEvent::Consumed(ConsumeResult::AlreadyCached(winner.clone())));
    assert_eq!(a, DepositAction::Finish(Ok(winner)));
}

#[test]
fn opening_creates_the_session_after_winning_the_consume() {
    let p = parties();
    let kind = DepositKind::Open {
        session_id: "s-1".into(),
        bearer_hash: "bh".into(),
        refund_address: p.payer.to_string(),
        min_deposit: 100,
    };
    let (f, _) = flow(&p, kind);
    let (f, a) = f.step(DepositEvent::Looked(None));
    assert_eq!(a, DepositAction::VerifyTransfer);
    let (f, a) = f.step(DepositEvent::Verified(Ok(verified(&p, 250)), 77));
    let receipt = consume_receipt(&a);
    assert_eq!(receipt.session_id.as_deref(), Some("s-1"));
    match &a {
        DepositAction::Consume { protocol, .. } => assert_eq!(*protocol, "mpp-session-deposit"),
        _ => unreachable!(),
    }
    let (f, a) = f.step(DepositEvent::Consumed(ConsumeResult::Consumed(receipt.clone())));
    assert_eq!(
        a,
        DepositAction::CreateSession(SessionState {
            session_id: "s-1".into(),
            bearer_hash: "bh".into(),
            deposit_amount: 250,
            spent: 0,
            refund_address: p.payer.to_string(),
            mint: p.mint.to_string(),
            decimals: 6,
            status: SessionStatus::Active,
            refund_signature: None,
            created_at: 77,
            updated_at: 77,
        })
    );
    let (f, a) = f.step(DepositEvent::Created);
    assert_eq!(a, DepositAction::Finish(Ok(receipt)));
    assert_eq!(f.stage, DepositStage::Done);
}

#[test]
fn opening_with_bad_refund_address_is_refused() {
    let p = parties();
    let kind = DepositKind::Open {
        session_id: "s-1".into(),
        bearer_hash: "bh".into(),
        refund_address: "not-an-address".into(),
        min_deposit: 0,
    };
    let (f, _) = flow(&p, kind);
    let (f, a) = f.step(DepositEvent::Looked(None));
    match a {
        DepositAction::Finish(Err(PaymentError::VerificationFailed(m))) => {
            assert!(m.starts_with("invalid refund address: "), "{m}")
        }
        other => panic!("expected a refusal, got {other:?}"),
    }
    assert_eq!(f.stage, DepositStage::Done);
}

#[test]
fn top_up_credits_and_refuses_replays_and_closed_sessions() {
    let p = parties();
    let top_up = || DepositKind::TopUp { session_id: "s-1".into() };

    // a signature consumed for another session is a replay
    let (f, _) = flow(&p, top_up());
    let (_, a) = f.step(DepositEvent::Looked(Some(cached(Some("s-2")))));
    assert_eq!(
        a,
        DepositAction::Finish(Err(PaymentError::ReplayDetected(
            "signature already used for a different session".into()
        )))
    );

    // the same session gets its cached receipt
    let (f, _) = flow(&p, top_up());
    let (_, a) = f.step(DepositEvent::Looked(Some(cached(Some("s-1")))));
    assert_eq!(a, DepositAction::Finish(Ok(cached(Some("s-1")))));

    // a fresh top-up credits the verified amount
    let (f, _) = flow(&p, top_up());
    let (f, _) = f.step(DepositEvent::Looked(None));
    let (f, a) = f.step(DepositEvent::Verified(Ok(verified(&p, 300)), 9));
    let receipt = consume_receipt(&a);
    let (f, a) = f.step(DepositEvent::Consumed(ConsumeResult::Consumed(receipt.clone())));
    assert_eq!(a, DepositAction::CreditSession { session_id: "s-1".into(), amount: 300 });
    let g = f.clone();
    let (_, a) = f.step(DepositEvent::Credited(true));
    assert_eq!(a, DepositAction::Finish(Ok(receipt)));
    let (_, a) = g.step(DepositEvent::Credited(false));
    assert_eq!(a, DepositAction::Finish(Err(PaymentError::SessionClosed("s-1".into()))));
}

#[test]
fn deposit_flow_expects_only_its_next_event() {
    let p = parties();
    let (f, _) = flow(&p, DepositKind::Charge { min_amount: 0 });
    assert!(f.expects(&DepositEvent::Looked(None)));
    assert!(!f.expects(&DepositEvent::Created));
    let (f, _) = f.step(DepositEvent::Looked(None));
    assert!(f.expects(&DepositEvent::Verified(Ok(verified(&p, 1)), 0)));
    assert!(!f.expects(&DepositEvent::Looked(None)));
}

fn open_session(refund: &Pubkey, deposit: u64, spent: u64) -> SessionState {
    SessionState {
        session_id: "s-1".into(),
        bearer_hash: "bh".into(),
        deposit_amount: deposit,
        spent,
        refund_address: refund.to_string(),
        mint: "mint".into(),
        decimals: 6,
        status: SessionStatus::Active,
        refund_signature: None,
        created_at: 10,
        updated_at: 20,
    }
}

#[test]
fn close_refunds_the_unspent_balance_before_closing() {
    let p = parties();
    let (f, a) = CloseFlow::new("s-1".into(), "bh".into(), p.recipient.to_bytes(), 6);
    assert_eq!(a, CloseAction::GetSession);
    let (f, a) = f.step(CloseEvent::Fetched(Some(open_session(&p.payer, 5_000_000, 2_000_000))));
    assert_eq!(a, CloseAction::BeginClose);
    let closing = SessionState {
        status: SessionStatus::Closing,
        updated_at: 30,
        ..open_session(&p.payer, 5_000_000, 2_000_000)
    };
    let (f, a) = f.step(CloseEvent::Began(Some(closing)));
    assert_eq!(a, CloseAction::SendRefund { amount: 3_000_000, to: p.payer.to_bytes() });
    let (f, a) = f.step(CloseEvent::Refunded(Ok("refund-sig".into())));
    assert_eq!(a, CloseAction::FinalizeClose(Some("refund-sig".into())));
    let (_, a) = f.step(CloseEvent::Finalized);
    match a {
        CloseAction::Finish(Ok(r)) => {
            assert_eq!(r.signature, "refund-sig");
            assert_eq!(r.amount, "3000000");
            assert_eq!(r.ui_amount, "3");
            assert_eq!(r.payer, p.payer.to_string());
            assert_eq!(r.timestamp, 30);
            assert_eq!(r.session_id.as_deref(), Some("s-1"));
        }
        other => panic!("expected a receipt, got {other:?}"),
    }
}

#[test]
fn close_without_balance_sends_no_refund() {
    let p = parties();
    let (f, _) = CloseFlow::new("s-1".into(), "bh".into(), p.recipient.to_bytes(), 6);
    let (f, _) = f.step(CloseEvent::Fetched(Some(open_session(&p.payer, 100, 100))));
    let (f, a) = f.step(CloseEvent::Began(Some(open_session(&p.payer, 100, 100))));
    assert_eq!(a, CloseAction::FinalizeClose(None));
    let (_, a) = f.step(CloseEvent::Finalized);
    match a {
        CloseAction::Finish(Ok(r)) => {
            assert_eq!(r.signature, "session-close:s-1");
            assert_eq!(r.amount, "0");
        }
        other => panic!("expected a receipt, got {other:?}"),
    }
}

#[test]
fn close_refusals() {
    let p = parties();
    let fresh = || CloseFlow::new("s-1".into(), "bh".into(), p.recipient.to_bytes(), 6).0;

    let (_, a) = fresh().step(CloseEvent::Fetched(None));
    assert_eq!(a, CloseAction::Finish(Err(PaymentError::SessionNotFound("s-1".into()))));

    let wrong = SessionState { bearer_hash: "other".into(), ..open_session(&p.payer, 1, 0) };
    let (_, a) = fresh().step(CloseEvent::Fetched(Some(wrong)));
    assert_eq!(a, CloseAction::Finish(Err(PaymentError::InvalidBearer)));

    let (f, _) = fresh().step(CloseEvent::Fetched(Some(open_session(&p.payer, 1, 0))));
    let (_, a) = f.step(CloseEvent::Began(None));
    assert_eq!(a, CloseAction::Finish(Err(PaymentError::SessionClosed("s-1".into()))));

    let (f, _) = fresh().step(CloseEvent::Fetched(Some(open_session(&p.payer, 5, 0))));
    let (f, _) = f.step(CloseEvent::Began(Some(open_session(&p.payer, 5, 0))));
    let failure = PaymentError::RelayError("refund submit failed: boom".into());
    let (_, a) = f.step(CloseEvent::Refunded(Err(failure.clone())));
    assert_eq!(a, CloseAction::Finish(Err(failure)));
}

#[test]
fn bearer_debit_answers() {
    let p = parties();
    assert_eq!(after_debit("s-1", "bh", 10, 6, &p.recipient.to_bytes(), None), BearerAction::GetSession);
    let debited = SessionState { spent: 10, updated_at: 99, ..open_session(&p.payer, 100, 0) };
    match after_debit("s-1", "bh", 10, 6, &p.recipient.to_bytes(), Some(debited)) {
        BearerAction::Finish(Ok(r)) => {
            assert_eq!(r.signature, "session:s-1");
            assert_eq!(r.amount, "10");
            assert_eq!(r.ui_amount, "0.00001");
            assert_eq!(r.timestamp, 99);
        }
        other => panic!("expected a receipt, got {other:?}"),
    }
}

fn stuck(refund: &Pubkey, mint: &Pubkey, sig: Option<String>) -> SessionState {
    SessionState {
        status: SessionStatus::Closing,
        refund_signature: sig,
        mint: mint.to_string(),
        ..open_session(refund, 900, 400)
    }
}

#[test]
fn recovery_sends_a_missing_refund() {
    let p = parties();
    let (f, s) = RecoveryFlow::start(stuck(&p.payer, &p.mint, None)).unwrap();
    assert_eq!(
        s,
        RecoveryStep::SendRefund { mint: p.mint.to_bytes(), refund_to: p.payer.to_bytes(), amount: 500 }
    );
    let (f, s) = f.step(RecoveryEvent::Refunded(Ok("new-sig".into())));
    assert_eq!(s, RecoveryStep::FinalizeClose(Some("new-sig".into())));
    let (_, s) = f.step(RecoveryEvent::Finalized);
    assert_eq!(s, RecoveryStep::Recovered);
}

#[test]
fn recovery_confirms_before_resending() {
    let p = parties();
    let earlier = solana_signature::Signature::from([7u8; 64]).to_string();
    let start = || RecoveryFlow::start(stuck(&p.payer, &p.mint, Some(earlier.clone()))).unwrap();

    let (f, s) = start();
    assert_eq!(s, RecoveryStep::ConfirmRefund(vec![7u8; 64]));
    let (_, s) = f.step(RecoveryEvent::Confirmation(RefundStatus::Confirmed));
    assert_eq!(s, RecoveryStep::FinalizeClose(Some(earlier.clone())));

    let (f, _) = start();
    let (_, s) = f.step(RecoveryEvent::Confirmation(RefundStatus::NotConfirmed));
    assert_eq!(
        s,
        RecoveryStep::SendRefund { mint: p.mint.to_bytes(), refund_to: p.payer.to_bytes(), amount: 500 }
    );

    let (f, _) = start();
    let (_, s) = f.step(RecoveryEvent::Confirmation(RefundStatus::Unknown));
    assert_eq!(s, RecoveryStep::Skip);

    let (f, _) = start();
    let (f, _) = f.step(RecoveryEvent::Confirmation(RefundStatus::NotConfirmed));
    let failure = PaymentError::RelayError("refund submit failed: boom".into());
    let (_, s) = f.step(RecoveryEvent::Refunded(Err(failure.clone())));
    assert_eq!(s, RecoveryStep::GiveUp(failure));
}

#[test]
fn recovery_stops_on_a_malformed_mint() {
    let p = parties();
    let mut s = stuck(&p.payer, &p.mint, None);
    s.mint = "bad".into();
    match RecoveryFlow::start(s) {
        Err(PaymentError::RpcError(m)) => assert!(m.starts_with("invalid session mint: "), "{m}"),
        other => panic!("expected an error, got {other:?}"),
    }
}
