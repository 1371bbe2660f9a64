use axum::http::HeaderMap;
use tollbooth::gate::{
    inject_receipt_headers, inject_receipt_headers_with_event, receipt_header_map, try_inject_receipt_headers,
    X_TOLLBOOTH_AMOUNT, X_TOLLBOOTH_EVENT,
    X_TOLLBOOTH_PAYER, X_TOLLBOOTH_PROTOCOL, X_TOLLBOOTH_SESSION_ID, X_TOLLBOOTH_SIGNATURE,
    X_TOLLBOOTH_UI_AMOUNT, X_TOLLBOOTH_VERIFIED,
};
use tollbooth::types::{PaymentReceipt, ProtocolKind};

fn make_receipt(session_id: Option<&str>) -> PaymentReceipt {
    PaymentReceipt {
        protocol: ProtocolKind::Mpp,
        signature: "5VERv8NMvzbJMEkV8xnrLkEaWRtSz9CosKDYjCJjBRnbJLgp8uirBgmQpjKhoR4tjF3ZpRzrFmBV6UjKdiSZkQUW".into(),
        amount: "1000".into(),
        ui_amount: "0.001".into(),
        mint: "EPjFWdd5AufqSSqeM2qN1xzybapC8G4wEGGkZwyTDt1v".into(),
        payer: "11111111111111111111111111111111".into(),
        recipient: "22222222222222222222222222222222".into(),
        timestamp: 1700000000,
        session_id: session_id.map(String::from),
    }
}

#[test]
fn inject_receipt_headers_sets_all_expected_headers() {
    let receipt = make_receipt(None);
    let mut headers = HeaderMap::new();
    inject_receipt_headers(&mut headers, &receipt);

    assert_eq!(headers.get(X_TOLLBOOTH_VERIFIED).unwrap(), "true");
    assert_eq!(headers.get(X_TOLLBOOTH_AMOUNT).unwrap(), "1000");
    assert_eq!(headers.get(X_TOLLBOOTH_UI_AMOUNT).unwrap(), "0.001");
    assert_eq!(
        headers.get(X_TOLLBOOTH_PAYER).unwrap(),
        "11111111111111111111111111111111"
    );
    assert_eq!(headers.get(X_TOLLBOOTH_PROTOCOL).unwrap(), "mpp");
    assert_eq!(
        headers.get(X_TOLLBOOTH_SIGNATURE).unwrap(),
        "5VERv8NMvzbJMEkV8xnrLkEaWRtSz9CosKDYjCJjBRnbJLgp8uirBgmQpjKhoR4tjF3ZpRzrFmBV6UjKdiSZkQUW"
    );
}

#[test]
fn session_id_header_set_when_present() {
    let receipt = make_receipt(Some("sess-123"));
    let mut headers = HeaderMap::new();
    inject_receipt_headers(&mut headers, &receipt);

    assert_eq!(headers.get(X_TOLLBOOTH_SESSION_ID).unwrap(), "sess-123");
}

#[test]
fn session_id_header_absent_when_none() {
    let receipt = make_receipt(None);
    let mut headers = HeaderMap::new();
    inject_receipt_headers(&mut headers, &receipt);

    assert!(headers.get(X_TOLLBOOTH_SESSION_ID).is_none());
}

#[test]
fn event_type_header_set_when_provided() {
    let receipt = make_receipt(None);
    let mut headers = HeaderMap::new();
    inject_receipt_headers_with_event(&mut headers, &receipt, Some("payment.completed"));

    assert_eq!(headers.get(X_TOLLBOOTH_EVENT).unwrap(), "payment.completed");
}

#[test]
fn event_type_header_absent_when_none() {
    let receipt = make_receipt(None);
    let mut headers = HeaderMap::new();
    inject_receipt_headers_with_event(&mut headers, &receipt, None);

    assert!(headers.get(X_TOLLBOOTH_EVENT).is_none());
}

#[test]
fn mpp_protocol_renders_correctly() {
    let mut receipt = make_receipt(None);
    receipt.protocol = ProtocolKind::Mpp;
    let mut headers = HeaderMap::new();
    inject_receipt_headers(&mut headers, &receipt);

    assert_eq!(headers.get(X_TOLLBOOTH_PROTOCOL).unwrap(), "mpp");
}

#[test]
fn unacceptable_header_values_are_left_out() {
    let mut receipt = make_receipt(None);
    receipt.payer = "bad\nvalue".into();
    receipt.amount = "tab\tok".into();
    let mut headers = HeaderMap::new();
    inject_receipt_headers_with_event(&mut headers, &receipt, Some("ev\u{7f}"));
    assert!(headers.get(X_TOLLBOOTH_PAYER).is_none());
    assert!(headers.get(X_TOLLBOOTH_EVENT).is_none());
    assert_eq!(headers.get(X_TOLLBOOTH_AMOUNT).unwrap(), "tab\tok");
    assert_eq!(headers.len(), 5);
}

#[test]
fn injected_headers_replace_earlier_values() {
    let receipt = make_receipt(Some("sess-9"));
    let mut headers = HeaderMap::new();
    headers.append(X_TOLLBOOTH_AMOUNT, "1".parse().unwrap());
    headers.append(X_TOLLBOOTH_AMOUNT, "2".parse().unwrap());
    headers.insert("x-other", "kept".parse().unwrap());
    inject_receipt_headers(&mut headers, &receipt);
    let amounts: Vec<_> = headers.get_all(X_TOLLBOOTH_AMOUNT).iter().collect();
    assert_eq!(amounts, vec!["1000"]);
    assert_eq!(headers.get("x-other").unwrap(), "kept");
    assert_eq!(headers.get(X_TOLLBOOTH_SESSION_ID).unwrap(), "sess-9");
}

#[test]
fn receipt_header_map_holds_only_the_receipt_headers() {
    let headers = receipt_header_map(&make_receipt(None), None);
    assert_eq!(headers.keys_len(), 6);
    assert_eq!(headers.get(X_TOLLBOOTH_VERIFIED).unwrap(), "true");
    assert_eq!(headers.get(X_TOLLBOOTH_AMOUNT).unwrap(), "1000");
    assert!(headers.get(X_TOLLBOOTH_SESSION_ID).is_none());
    assert!(headers.get(X_TOLLBOOTH_EVENT).is_none());
    let with_both = receipt_header_map(&make_receipt(Some("sess-1")), Some("session.topup"));
    assert_eq!(with_both.keys_len(), 8);
    assert_eq!(with_both.get(X_TOLLBOOTH_SESSION_ID).unwrap(), "sess-1");
    assert_eq!(with_both.get(X_TOLLBOOTH_EVENT).unwrap(), "session.topup");
}

#[test]
fn try_inject_keeps_other_headers_and_reports_room() {
    let mut headers = HeaderMap::new();
    headers.insert("content-type", "text/plain".parse().unwrap());
    assert!(try_inject_receipt_headers(&mut headers, &make_receipt(None), None));
    assert_eq!(headers.get("content-type").unwrap(), "text/plain");
    assert_eq!(headers.get(X_TOLLBOOTH_PROTOCOL).unwrap(), "mpp");
    assert_eq!(headers.keys_len(), 7);
}

#[test]
fn try_inject_refuses_a_full_map() {
    let mut headers = HeaderMap::new();
    for i in 0..6545 {
        let name = axum::http::HeaderName::from_bytes(format!("h{i}").as_bytes()).unwrap();
        headers.insert(name, "v".parse().unwrap());
    }
    assert!(!try_inject_receipt_headers(&mut headers, &make_receipt(None), None));
    assert_eq!(headers.keys_len(), 6545);
    assert!(headers.get(X_TOLLBOOTH_VERIFIED).is_none());
}
