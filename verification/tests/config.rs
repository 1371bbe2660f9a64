use tollbooth::config::{
    advertised_relay_url, DatabaseConfig, ProtocolsConfig, RelayerConfig, RelayerMode, RouteEntry,
    RouteMode, ServerConfig, SolanaConfig, TollboothConfig, WebhooksConfig,
};
use tollbooth::error::ConfigError;

fn missing_upstream_config() -> TollboothConfig {
    TollboothConfig {
        server: ServerConfig {
            listen: "0.0.0.0:3402".into(),
            upstream: None,
            relay_url: None,
        },
        solana: SolanaConfig {
            network: "devnet".into(),
            rpc_url: "https://api.devnet.solana.com".into(),
            recipient: "11111111111111111111111111111111".into(),
            mint: "11111111111111111111111111111111".into(),
            decimals: 6,
            keypair_path: "./keypair.json".into(),
        },
        relayer: RelayerConfig {
            mode: RelayerMode::Disabled,
            endpoint: None,
            api_key: None,
            max_transfer_amount: None,
        },
        database: DatabaseConfig {
            url: "file:test.db".into(),
            token: None,
        },
        protocols: ProtocolsConfig { mpp: true },
        routes: vec![],
        webhooks: None,
        logging: None,
    }
}

#[test]
fn reject_missing_upstream() {
    let config = missing_upstream_config();
    assert!(config.validate().is_err());
}

fn validation_message(config: &TollboothConfig) -> Option<String> {
    match config.validate() {
        Ok(()) => None,
        Err(ConfigError::Validation(m)) => Some(m),
        Err(other) => panic!("unexpected error {other:?}"),
    }
}

#[test]
fn validation_rules_in_order() {
    let mut c = missing_upstream_config();
    assert_eq!(
        validation_message(&c).unwrap(),
        "server.upstream is required for proxy mode"
    );
    c.server.upstream = Some("http://localhost:8080".into());
    assert_eq!(validation_message(&c), None);

    c.solana.network = "mars".into();
    assert_eq!(validation_message(&c).unwrap(), "invalid network: mars");
    c.solana.network = "mainnet-beta".into();

    c.relayer.mode = RelayerMode::External;
    assert_eq!(
        validation_message(&c).unwrap(),
        "relayer.endpoint required for external mode"
    );
    c.relayer.endpoint = Some("https://kora.example".into());
    assert_eq!(validation_message(&c), None);

    c.routes = vec![
        RouteEntry {
            path: "/ok".into(),
            method: None,
            price: "0.01".into(),
            mode: RouteMode::Session,
            deposit: Some("1".into()),
        },
        RouteEntry {
            path: "/stream".into(),
            method: None,
            price: "0.01".into(),
            mode: RouteMode::Session,
            deposit: None,
        },
    ];
    assert_eq!(
        validation_message(&c).unwrap(),
        "session route /stream requires deposit"
    );
    c.routes[1].deposit = Some("1".into());

    c.webhooks = Some(WebhooksConfig {
        enabled: true,
        url: Some("https://hooks.example".into()),
        secret: Some(String::new()),
    });
    assert_eq!(
        validation_message(&c).unwrap(),
        "webhooks.secret is required when webhooks are enabled"
    );
    c.webhooks.as_mut().unwrap().enabled = false;
    assert_eq!(validation_message(&c), None);
}

#[test]
fn relay_url_defaults_to_listen_address() {
    let mut server = missing_upstream_config().server;
    assert_eq!(
        advertised_relay_url(&server, RelayerMode::Builtin),
        "http://0.0.0.0:3402/relay"
    );
    server.relay_url = Some("https://pay.example.com/relay".into());
    assert_eq!(
        advertised_relay_url(&server, RelayerMode::Builtin),
        "https://pay.example.com/relay"
    );
    assert_eq!(
        advertised_relay_url(&server, RelayerMode::Disabled),
        "http://0.0.0.0:3402/relay"
    );
}
