use axum::http::HeaderMap;
use tollbooth::config::ProtocolsConfig;
use tollbooth::gate::negotiate_protocol;
use tollbooth::types::ProtocolKind;

#[test]
fn always_returns_mpp() {
    let headers = HeaderMap::new();
    let config = ProtocolsConfig { mpp: true };
    assert_eq!(negotiate_protocol(&headers, &config), ProtocolKind::Mpp);
}
