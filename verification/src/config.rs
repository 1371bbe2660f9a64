//! Gateway configuration and its validation rules.
use vstd::prelude::*;
use crate::error::ConfigError;
use crate::text::{str_eq, text};

verus! {

/// How a route is paid for.
#[derive(Debug, Clone, Copy, PartialEq, Eq, Structural)]
pub enum RouteMode {
    Charge,
    Session,
}

/// Which fee relayer the gateway runs.
#[derive(Debug, Clone, Copy, PartialEq, Eq, Structural)]
pub enum RelayerMode {
    Builtin,
    External,
    Disabled,
}

/// The whole gateway configuration.
#[derive(Debug, Clone, PartialEq)]
pub struct TollboothConfig {
    pub server: ServerConfig,
    pub solana: SolanaConfig,
    pub relayer: RelayerConfig,
    pub database: DatabaseConfig,
    pub protocols: ProtocolsConfig,
    pub routes: Vec<RouteEntry>,
    pub webhooks: Option<WebhooksConfig>,
    pub logging: Option<LoggingConfig>,
}

#[derive(Debug, Clone, PartialEq)]
pub struct ServerConfig {
    pub listen: String,
    pub upstream: Option<String>,
    /// Public URL for the /relay endpoint (e.g. "https://pay.example.com/relay").
    /// If omitted, derived from `listen` as `http://{listen}/relay`.
    pub relay_url: Option<String>,
}

#[derive(Debug, Clone, PartialEq)]
pub struct SolanaConfig {
    pub network: String,
    pub rpc_url: String,
    pub recipient: String,
    pub mint: String,
    pub decimals: u8,
    pub keypair_path: String,
}

#[derive(Debug, Clone, PartialEq)]
pub struct RelayerConfig {
    pub mode: RelayerMode,
    pub endpoint: Option<String>,
    pub api_key: Option<String>,
    pub max_transfer_amount: Option<u64>,
}

#[derive(Debug, Clone, PartialEq)]
pub struct DatabaseConfig {
    pub url: String,
    pub token: Option<String>,
}

#[derive(Debug, Clone, Copy, PartialEq)]
pub struct ProtocolsConfig {
    pub mpp: bool,
}

#[derive(Debug, Clone, PartialEq, Eq)]
pub struct RouteEntry {
    pub path: String,
    pub method: Option<String>,
    pub price: String,
    pub mode: RouteMode,
    pub deposit: Option<String>,
}

#[derive(Debug, Clone, PartialEq)]
pub struct WebhooksConfig {
    pub enabled: bool,
    pub url: Option<String>,
    pub secret: Option<String>,
}

#[derive(Debug, Clone, PartialEq)]
pub struct LoggingConfig {
    pub level: Option<String>,
    pub format: Option<String>,
}

/// The networks that the gateway can be pointed at.
pub open spec fn known_network(n: Seq<char>) -> bool {
    n == "mainnet-beta"@ || n == "devnet"@ || n == "testnet"@ || n == "localnet"@
}

/// A session route must say how much a session deposit is.
pub open spec fn route_lacks_deposit(r: RouteEntry) -> bool {
    r.mode == RouteMode::Session && r.deposit is None
}

/// The position of the first session route without a deposit.
pub open spec fn first_route_lacking_deposit(routes: Seq<RouteEntry>) -> Option<int>
    decreases routes.len(),
{
    if routes.len() == 0 {
        None
    } else {
        match first_route_lacking_deposit(routes.drop_last()) {
            Some(i) => Some(i),
            None => if route_lacks_deposit(routes.last()) {
                Some(routes.len() - 1)
            } else {
                None
            },
        }
    }
}

/// Enabled webhooks must carry a non-empty signing secret.
pub open spec fn webhooks_lack_secret(w: Option<WebhooksConfig>) -> bool {
    match w {
        Some(wh) => wh.enabled && match wh.secret {
            None => true,
            Some(s) => s@.len() == 0,
        },
        None => false,
    }
}

/// The message of the first rule that `c` breaks, in the order the rules are
/// checked, or `None` when `c` is valid.
pub open spec fn config_violation(c: TollboothConfig) -> Option<Seq<char>> {
    if c.server.upstream is None {
        Some("server.upstream is required for proxy mode"@)
    } else if !known_network(c.solana.network@) {
        Some("invalid network: "@ + c.solana.network@)
    } else if c.relayer.mode == RelayerMode::External && c.relayer.endpoint is None {
        Some("relayer.endpoint required for external mode"@)
    } else if first_route_lacking_deposit(c.routes@) is Some {
        let i = first_route_lacking_deposit(c.routes@)->0;
        Some("session route "@ + c.routes@[i].path@ + " requires deposit"@)
    } else if webhooks_lack_secret(c.webhooks) {
        Some("webhooks.secret is required when webhooks are enabled"@)
    } else {
        None
    }
}

/// The network rule accepts exactly `mainnet-beta`, `devnet`, `testnet` and
/// `localnet`: with an upstream, a configuration that meets the other rules
/// is valid on each of the four, and one on any other network is refused
/// naming that network.
pub proof fn law_config_networks(c: TollboothConfig)
    requires
        c.server.upstream is Some,
    ensures
        ({
            let n = c.solana.network@;
            let listed = n == "mainnet-beta"@ || n == "devnet"@ || n == "testnet"@ || n == "localnet"@;
            let others_met = !(c.relayer.mode == RelayerMode::External && c.relayer.endpoint is None)
                && first_route_lacking_deposit(c.routes@) is None && !webhooks_lack_secret(c.webhooks);
            &&& (listed && others_met) ==> config_violation(c) is None
            &&& !listed ==> config_violation(c) == Some("invalid network: "@ + n)
        }),
{
}

/// The first route lacking a deposit lies in the sequence and lacks one;
/// every route before it has what it needs.
pub proof fn lemma_first_route_lacking_deposit(routes: Seq<RouteEntry>)
    ensures
        match first_route_lacking_deposit(routes) {
            Some(i) => 0 <= i < routes.len() && route_lacks_deposit(routes[i]) && forall|j: int|
                0 <= j < i ==> !route_lacks_deposit(#[trigger] routes[j]),
            None => forall|j: int| 0 <= j < routes.len() ==> !route_lacks_deposit(#[trigger] routes[j]),
        },
    decreases routes.len(),
{
    if routes.len() > 0 {
        lemma_first_route_lacking_deposit(routes.drop_last());
        assert forall|j: int| 0 <= j < routes.len() - 1 implies routes[j] == routes.drop_last()[j] by {}
    }
}

impl TollboothConfig {
    /// Checks the configuration rules; the error names the first rule broken.
    pub fn validate(&self) -> (r: Result<(), ConfigError>)
        ensures
            match config_violation(*self) {
                None => r is Ok,
                Some(m) => r matches Err(ConfigError::Validation(t)) && t@ == m,
            },
            // each of the four networks passes the network rule
            (self.server.upstream is Some && (self.solana.network@ == "mainnet-beta"@ || self.solana.network@
                == "devnet"@ || self.solana.network@ == "testnet"@ || self.solana.network@ == "localnet"@)
                && !(self.relayer.mode == RelayerMode::External && self.relayer.endpoint is None)
                && first_route_lacking_deposit(self.routes@) is None && !webhooks_lack_secret(self.webhooks))
                ==> r is Ok,
    {
        proof {
            if self.server.upstream is Some {
                law_config_networks(*self);
            }
        }
        if self.server.upstream.is_none() {
            return Err(ConfigError::Validation(text("server.upstream is required for proxy mode")));
        }
        let network = self.solana.network.as_str();
        if !(str_eq(network, "mainnet-beta") || str_eq(network, "devnet") || str_eq(network, "testnet")
            || str_eq(network, "localnet")) {
            let mut m = text("invalid network: ");
            m.append(network);
            return Err(ConfigError::Validation(m));
        }
        if matches!(self.relayer.mode, RelayerMode::External) && self.relayer.endpoint.is_none() {
            return Err(ConfigError::Validation(text("relayer.endpoint required for external mode")));
        }
        let mut i: usize = 0;
        while i < self.routes.len()
            invariant
                i <= self.routes@.len(),
                self.server.upstream is Some,
                known_network(self.solana.network@),
                !(self.relayer.mode == RelayerMode::External && self.relayer.endpoint is None),
                first_route_lacking_deposit(self.routes@.take(i as int)) is None,
            decreases self.routes.len() - i,
        {
            let route = &self.routes[i];
            assert(self.routes@.take(i + 1).drop_last() =~= self.routes@.take(i as int));
            if matches!(route.mode, RouteMode::Session) && route.deposit.is_none() {
                proof {
                    let pre = self.routes@.take(i + 1);
                    assert(first_route_lacking_deposit(pre) == Some(i as int));
                    lemma_first_route_lacking_deposit(pre);
                    lemma_first_route_lacking_deposit(self.routes@);
                    let f = first_route_lacking_deposit(self.routes@);
                    if f != Some(i as int) {
                        if let Some(j) = f {
                            if j < i {
                                assert(pre[j] == self.routes@[j]);
                            } else {
                                assert(pre[i as int] == self.routes@[i as int]);
                            }
                        } else {
                            assert(pre[i as int] == self.routes@[i as int]);
                        }
                    }
                }
                let mut m = text("session route ");
                m.append(route.path.as_str());
                m.append(" requires deposit");
                return Err(ConfigError::Validation(m));
            }
            i = i + 1;
        }
        proof {
            assert(self.routes@.take(self.routes@.len() as int) =~= self.routes@);
        }
        if let Some(wh) = &self.webhooks {
            if wh.enabled {
                let missing = match &wh.secret {
                    None => true,
                    Some(s) => s.as_str().is_empty(),
                };
                if missing {
                    return Err(
                        ConfigError::Validation(
                            text("webhooks.secret is required when webhooks are enabled"),
                        ),
                    );
                }
            }
        }
        Ok(())
    }
}

/// The default relay URL, derived from the listen address.
pub open spec fn default_relay_url(listen: Seq<char>) -> Seq<char> {
    "http://"@ + listen + "/relay"@
}

/// The URL that challenges advertise for the relay: with a relayer enabled,
/// the configured one or one derived from the listen address; with the
/// relayer disabled, always the derived one.
pub fn advertised_relay_url(server: &ServerConfig, mode: RelayerMode) -> (r: String)
    ensures
        match (mode, server.relay_url) {
            (RelayerMode::Disabled, _) => r@ == default_relay_url(server.listen@),
            (_, Some(u)) => r@ == u@,
            (_, None) => r@ == default_relay_url(server.listen@),
        },
{
    let configured = match mode {
        RelayerMode::Disabled => None,
        _ => match &server.relay_url {
            Some(u) => Some(u.clone()),
            None => None,
        },
    };
    match configured {
        Some(u) => u,
        None => {
            let mut u = text("http://");
            u.append(server.listen.as_str());
            u.append("/relay");
            u
        },
    }
}

/// The upstream that requests are forwarded to (`http://localhost:8080` when
/// none is configured).
pub fn effective_upstream(server: &ServerConfig) -> (r: String)
    ensures
        match server.upstream {
            Some(u) => r@ == u@,
            None => r@ == "http://localhost:8080"@,
        },
{
    match &server.upstream {
        Some(u) => u.clone(),
        None => text("http://localhost:8080"),
    }
}

/// The built-in relayer's per-transfer cap (10000 raw units unless configured).
pub fn effective_max_transfer_amount(relayer: &RelayerConfig) -> (r: u64)
    ensures
        match relayer.max_transfer_amount {
            Some(m) => r == m,
            None => r == 10_000,
        },
{
    match relayer.max_transfer_amount {
        Some(m) => m,
        None => 10_000,
    }
}

} // verus!
