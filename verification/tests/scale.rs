use solana_pubkey::Pubkey;
use tollbooth::address::check_classic_mint;
use tollbooth::amount::reaches_scale;
use tollbooth::config::{RouteEntry, RouteMode};
use tollbooth::error::PaymentError;
use tollbooth::flow::{after_debit, BearerAction, DepositAction, DepositEvent, DepositFlow, DepositKind};
use tollbooth::gate::{GateEvent, GateFlow};
use tollbooth::mpp::MppSessionCredential;
use tollbooth::retry::{after_failure, RetryDecision};
use tollbooth::transfer::VerifiedTransfer;
use tollbooth::types::{now_secs, secs_from_reading, PaymentReceipt, ProtocolKind};

#[test]
fn clock_readings_become_timestamps() {
    assert_eq!(secs_from_reading(Some(1_700_000_000)), 1_700_000_000);
    assert_eq!(secs_from_reading(None), 0);
    assert_eq!(secs_from_reading(Some(u64::MAX)), -1);
    assert!(now_secs() > 1_600_000_000);
}

#[test]
fn parsing_reaches_the_scale_only_for_well_formed_amounts() {
    assert!(reaches_scale("12", 25));
    assert!(reaches_scale("0.01", 20));
    // the padded fraction itself overflows before any scaling
    assert!(!reaches_scale("0.5", 25));
    assert!(!reaches_scale("", 25));
    assert!(!reaches_scale("abc", 25));
    assert!(!reaches_scale("1.2.3", 25));
    assert!(!reaches_scale("1.5", 0));
    assert!(!reaches_scale("1.123", 2));
    assert!(!reaches_scale("x.5", 6));
    assert!(reaches_scale("1.5", 6));
}

#[test]
fn token_2022_mints_are_refused() {
    let mint = Pubkey::new_unique();
    let t22: Pubkey = "TokenzQdBNbLqP5VEhdkAS6EPFLC1PHnBqCXEpPxuEb".parse().unwrap();
    assert_eq!(
        check_classic_mint(&mint.to_bytes(), &t22.to_bytes()),
        Err(format!(
            "mint {mint} is a Token-2022 mint, which is not yet supported. The relayer and transaction validator only handle classic SPL Token mints."
        ))
    );
    assert_eq!(check_classic_mint(&mint.to_bytes(), &spl_token::id().to_bytes()), Ok(()));
}

fn cached() -> PaymentReceipt {
    PaymentReceipt {
        protocol: ProtocolKind::Mpp,
        signature: "s".into(),
        amount: "1".into(),
        ui_amount: "1".into(),
        mint: "m".into(),
        payer: "p".into(),
        recipient: "r".into(),
        timestamp: 0,
        session_id: None,
    }
}

#[test]
fn large_scales_are_refused_only_where_amounts_are_rendered() {
    let (r, m) = (Pubkey::new_unique().to_bytes(), Pubkey::new_unique().to_bytes());
    let (f, _) = DepositFlow::new(DepositKind::Charge { min_amount: 10 }, "s".into(), r, m, 25);
    assert!(!f.renders(&DepositEvent::Looked(Some(cached()))));
    let (_, a) = f.clone().step(DepositEvent::Looked(Some(cached())));
    assert_eq!(a, DepositAction::Finish(Ok(cached())));

    let (f, _) = f.step(DepositEvent::Looked(None));
    let low = VerifiedTransfer { amount: 5, payer: r, recipient: r, mint: m };
    let ev = DepositEvent::Verified(Ok(low), 1);
    assert!(!f.renders(&ev));
    let (_, a) = f.clone().step(ev);
    assert_eq!(a, DepositAction::Finish(Err(PaymentError::InsufficientBalance { need: 10, have: 5 })));
    assert!(f.renders(&DepositEvent::Verified(Ok(VerifiedTransfer { amount: 50, ..low }), 1)));

    assert_eq!(after_debit("s", "h", 1, 25, &r, None), BearerAction::GetSession);
}

#[test]
fn gate_parses_the_deposit_only_where_it_is_used() {
    let route = |mode| RouteEntry { path: "/a".into(), method: None, price: "1".into(), mode, deposit: Some("1".into()) };
    let open = Some(MppSessionCredential::Open { signature: "s".into(), refund_address: "r".into(), bearer: "b".into() });
    let bearer = Some(MppSessionCredential::Bearer { session_id: "s".into(), bearer: "b".into() });
    assert!(GateFlow::start_parses(&route(RouteMode::Session), &open, &None, true));
    assert!(!GateFlow::start_parses(&route(RouteMode::Session), &bearer, &None, true));
    assert!(GateFlow::start_parses(&route(RouteMode::Session), &None, &None, true));
    assert!(!GateFlow::start_parses(&route(RouteMode::Session), &None, &Some("sig".into()), true));
    assert!(!GateFlow::start_parses(&route(RouteMode::Charge), &None, &None, true));

    let mint = Pubkey::new_unique().to_bytes();
    let (f, _) = GateFlow::new(route(RouteMode::Session), mint, 6, 1, bearer, None, true, false);
    assert!(f.step_parses(&GateEvent::SessionAnswered(Err(PaymentError::InvalidBearer))));
    assert!(!f.step_parses(&GateEvent::SessionAnswered(Ok(cached()))));
}

#[test]
fn non_transient_failures_need_no_room_for_a_delay() {
    assert_eq!(after_failure(u64::MAX, 40, "boom"), RetryDecision::Fail("boom".into()));
    assert_eq!(after_failure(100, 3, "HTTP 503"), RetryDecision::Wait(800));
}
