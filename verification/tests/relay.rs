use solana_pubkey::Pubkey;
use tollbooth::error::PaymentError;
use tollbooth::relay::{
    builtin_supported_tokens, check_builtin_config, check_prepare_amount, external_relay_reply, parse_prepare_request,
    parse_prepare_request_in_scale,
    prepare_failure_response, relay_availability, relay_failure_response, DisabledRelayer,
    PrepareRequest,
};
use tollbooth::validation::RelayTransaction;

#[test]
fn prepare_rejects_excessive_amount() {
    let recipient = Pubkey::new_unique().to_bytes();
    let mint = Pubkey::new_unique().to_bytes();
    let payer = Pubkey::new_unique().to_bytes();
    let fee_payer = Pubkey::new_unique().to_bytes();
    let reference = Pubkey::new_unique().to_bytes();
    let result = tollbooth::instruction::prepare_instructions(
        1_000_000, &vec![mint], &recipient, &fee_payer, &payer, 2_000_000, 6, &reference,
    )
    .unwrap();
    assert!(result.is_err());
    let err = result.unwrap_err().message();
    assert!(err.contains("exceeds"), "expected amount limit error, got: {err}");
}

#[test]
fn prepare_amount_above_cap_is_rejected() {
    let err = check_prepare_amount(1_000_000, 2_000_000).unwrap_err();
    let text = err.message();
    assert!(text.contains("exceeds"), "expected amount limit error, got: {text}");
    assert_eq!(text, "relay error: amount 2000000 exceeds max 1000000");
    assert!(check_prepare_amount(0, 2_000_000).is_ok());
    assert!(check_prepare_amount(1_000_000, 1_000_000).is_ok());
}

#[test]
fn relay_failures_map_to_statuses() {
    let (s, b) = relay_failure_response("relay error: validation failed: relay error: recipient x not in allowlist");
    assert_eq!((s, b.error.as_str()), (400, "transaction rejected"));
    let (s, b) = relay_failure_response("relay error: transaction blockhash is expired");
    assert_eq!((s, b.error.as_str()), (400, "transaction rejected"));
    let (s, b) = relay_failure_response("This transaction has already been processed");
    assert_eq!((s, b.error.as_str()), (409, "transaction already processed"));
    let (s, b) = relay_failure_response("boom");
    assert_eq!((s, b.error.as_str()), (502, "relay submission failed: boom"));
    let (s, b) = prepare_failure_response("relay error: amount 5 exceeds max 1");
    assert_eq!(s, 400);
    assert_eq!(b.error, "prepare failed: relay error: amount 5 exceeds max 1");
    assert_eq!(prepare_failure_response("rpc error: blockhash").0, 502);
}

#[test]
fn relay_availability_order() {
    assert_eq!(relay_availability(false, true).unwrap_err().1.error, "relay not configured");
    assert_eq!(relay_availability(true, true).unwrap_err().0, 503);
    assert!(relay_availability(true, false).is_ok());
}

#[test]
fn prepare_request_parsing() {
    let mint = Pubkey::new_unique().to_bytes();
    let payer = Pubkey::new_unique();
    let req = PrepareRequest { payer: payer.to_string(), amount: "1".into() };
    assert_eq!(parse_prepare_request(&req, mint, 6).unwrap(), (payer.to_bytes(), 1_000_000));
    let bad_payer = PrepareRequest { payer: "nope!".into(), amount: "1".into() };
    let (s, b) = parse_prepare_request(&bad_payer, mint, 6).unwrap_err();
    assert_eq!((s, b.error.as_str()), (400, "invalid payer pubkey: nope!"));
    let bad_amount = PrepareRequest { payer: payer.to_string(), amount: "0.0000001".into() };
    let (s, b) = parse_prepare_request(&bad_amount, mint, 6).unwrap_err();
    assert_eq!(s, 400);
    assert_eq!(
        b.error,
        "invalid amount: excess precision: 7 fractional digits for 6 decimal token"
    );
}

#[test]
fn disabled_relayer_refuses() {
    let r = DisabledRelayer;
    let tx = RelayTransaction { account_keys: vec![], instructions: vec![], has_address_table_lookups: false };
    assert_eq!(
        r.sign_and_send(&tx),
        Err(PaymentError::RelayError("relay is disabled, clients must pay their own fees".into()))
    );
    assert_eq!(r.fee_payer(), [0u8; 32]);
    assert!(r.supported_tokens().unwrap().is_empty());
}

#[test]
fn builtin_relayer_configuration() {
    let m = Pubkey::new_unique().to_bytes();
    assert_eq!(
        check_builtin_config(&vec![], &vec![m]),
        Err(PaymentError::RelayError("allowed_mints must not be empty".into()))
    );
    assert_eq!(
        check_builtin_config(&vec![m], &vec![]),
        Err(PaymentError::RelayError("allowed_recipients must not be empty".into()))
    );
    let tokens = builtin_supported_tokens(&vec![m], 6);
    assert_eq!(tokens.len(), 1);
    assert_eq!(tokens[0].mint, m);
    assert_eq!(tokens[0].decimals, 6);
    assert!(tokens[0].symbol.is_empty());
}

#[test]
fn external_relayer_replies() {
    let sig = solana_signature::Signature::from([9u8; 64]);
    assert_eq!(external_relay_reply(None, Some(sig.to_string())), Ok(vec![9u8; 64]));
    assert_eq!(
        external_relay_reply(Some("{\"code\":-32000}".into()), Some(sig.to_string())),
        Err(PaymentError::RelayError("kora error: {\"code\":-32000}".into()))
    );
    assert_eq!(
        external_relay_reply(None, None),
        Err(PaymentError::RelayError("missing result in kora response".into()))
    );
    match external_relay_reply(None, Some("zzz".into())) {
        Err(PaymentError::RelayError(m)) => assert!(m.starts_with("invalid signature: "), "{m}"),
        other => panic!("expected an error, got {other:?}"),
    }
}

#[test]
fn prepare_request_scale_limit() {
    let mint = Pubkey::new_unique().to_bytes();
    let payer = Pubkey::new_unique();
    let deep = PrepareRequest { payer: payer.to_string(), amount: "1".into() };
    assert_eq!(parse_prepare_request_in_scale(&deep, mint, 25), None);
    let bad_payer = PrepareRequest { payer: "nope!".into(), amount: "1".into() };
    let (s, b) = parse_prepare_request_in_scale(&bad_payer, mint, 25).unwrap().unwrap_err();
    assert_eq!((s, b.error.as_str()), (400, "invalid payer pubkey: nope!"));
    let ok = PrepareRequest { payer: payer.to_string(), amount: "2".into() };
    assert_eq!(
        parse_prepare_request_in_scale(&ok, mint, 6).unwrap().unwrap(),
        (payer.to_bytes(), 2_000_000)
    );
}
