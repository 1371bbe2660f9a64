use solana_pubkey::Pubkey;
use tollbooth::amount::TokenAmount;
use tollbooth::config::{RouteEntry, RouteMode};
use tollbooth::error::PaymentError;
use tollbooth::gate::{GateAction, GateEvent, GateFlow, GateStage};
use tollbooth::mpp::MppSessionCredential;
use tollbooth::types::{PaymentReceipt, ProtocolKind};

fn route(mode: RouteMode, deposit: Option<&str>) -> RouteEntry {
    RouteEntry {
        path: "/api/data/*".into(),
        method: None,
        price: "0.01".into(),
        mode,
        deposit: deposit.map(str::to_string),
    }
}

fn receipt(sig: &str) -> PaymentReceipt {
    PaymentReceipt {
        protocol: ProtocolKind::Mpp,
        signature: sig.into(),
        amount: "10000".into(),
        ui_amount: "0.01".into(),
        mint: "m".into(),
        payer: "p".into(),
        recipient: "r".into(),
        timestamp: 3,
        session_id: None,
    }
}

fn open_credential() -> MppSessionCredential {
    MppSessionCredential::Open { signature: "dep".into(), refund_address: "ra".into(), bearer: "b".into() }
}

#[test]
fn opening_a_session_pays_the_deposit() {
    let mint = Pubkey::new_unique().to_bytes();
    let (f, a) = GateFlow::new(
        route(RouteMode::Session, Some("0.1")),
        mint,
        6,
        10_000,
        Some(open_credential()),
        None,
        true,
        true,
    );
    assert_eq!(a, GateAction::ProcessSession { cost: 100_000 });
    let (f, a) = f.step(GateEvent::SessionAnswered(Ok(receipt("dep"))));
    assert_eq!(
        a,
        GateAction::Paid {
            receipt: receipt("dep"),
            event_type: "session.opened",
            metric: "payments.mpp.session.open",
            amount: 100_000
        }
    );
    assert_eq!(f.stage, GateStage::Done);
}

#[test]
fn bearer_credential_pays_the_price() {
    let mint = Pubkey::new_unique().to_bytes();
    let bearer = MppSessionCredential::Bearer { session_id: "s".into(), bearer: "b".into() };
    let (f, a) =
        GateFlow::new(route(RouteMode::Session, Some("0.1")), mint, 6, 10_000, Some(bearer), None, true, false);
    assert_eq!(a, GateAction::ProcessSession { cost: 10_000 });
    let (_, a) = f.step(GateEvent::SessionAnswered(Ok(receipt("session:s"))));
    match a {
        GateAction::Paid { event_type, metric, amount, .. } => {
            assert_eq!((event_type, metric, amount), ("payment.completed", "payments.mpp.session.bearer", 10_000));
        }
        other => panic!("expected a payment, got {other:?}"),
    }
}

#[test]
fn refused_session_falls_back_to_the_charge_proof_then_the_challenge() {
    let mint = Pubkey::new_unique().to_bytes();
    let (f, _) = GateFlow::new(
        route(RouteMode::Session, Some("0.1")),
        mint,
        6,
        10_000,
        Some(open_credential()),
        Some("charge-sig".into()),
        true,
        true,
    );
    let (f, a) = f.step(GateEvent::SessionAnswered(Err(PaymentError::InvalidBearer)));
    assert_eq!(a, GateAction::VerifyCharge { signature: "charge-sig".into(), min_amount: 10_000 });
    let (f, a) = f.step(GateEvent::ChargeAnswered(Err(PaymentError::VerificationFailed("x".into()))));
    assert_eq!(a, GateAction::SessionChallenge(TokenAmount::new(100_000, mint, 6)));
    assert_eq!(f.stage, GateStage::Done);
}

#[test]
fn charge_route_ignores_session_credentials() {
    let mint = Pubkey::new_unique().to_bytes();
    let (_, a) = GateFlow::new(
        route(RouteMode::Charge, None),
        mint,
        6,
        1_000,
        Some(open_credential()),
        None,
        true,
        true,
    );
    assert_eq!(a, GateAction::ChargeChallenge(TokenAmount::new(1_000, mint, 6)));
}

#[test]
fn verified_charge_pays_the_price() {
    let mint = Pubkey::new_unique().to_bytes();
    let (f, a) =
        GateFlow::new(route(RouteMode::Charge, None), mint, 6, 1_000, None, Some("sig".into()), false, true);
    assert_eq!(a, GateAction::VerifyCharge { signature: "sig".into(), min_amount: 1_000 });
    let (_, a) = f.step(GateEvent::ChargeAnswered(Ok(receipt("sig"))));
    assert_eq!(
        a,
        GateAction::Paid {
            receipt: receipt("sig"),
            event_type: "payment.completed",
            metric: "payments.mpp.charge",
            amount: 1_000
        }
    );
}

#[test]
fn challenges_without_handlers_are_bare() {
    let mint = Pubkey::new_unique().to_bytes();
    let (_, a) = GateFlow::new(route(RouteMode::Charge, None), mint, 6, 1_000, None, None, true, false);
    assert_eq!(a, GateAction::BareChallenge);
    let (_, a) = GateFlow::new(route(RouteMode::Session, None), mint, 6, 1_000, None, None, false, true);
    assert_eq!(a, GateAction::BareChallenge);
    // a session route without a deposit asks for the price; an unparsable one for nothing
    let (_, a) = GateFlow::new(route(RouteMode::Session, None), mint, 6, 1_000, None, None, true, false);
    assert_eq!(a, GateAction::SessionChallenge(TokenAmount::new(1_000, mint, 6)));
    let (_, a) = GateFlow::new(route(RouteMode::Session, Some("x")), mint, 6, 1_000, None, None, true, false);
    assert_eq!(a, GateAction::SessionChallenge(TokenAmount::new(0, mint, 6)));
}
