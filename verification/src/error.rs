//! Error types of the gateway and the messages they render to.
use vstd::prelude::*;
use crate::text::{decimal_text, push_decimal};

verus! {

/// Why a payment could not be accepted.
#[derive(Debug, Clone, PartialEq, Eq)]
pub enum PaymentError {
    VerificationFailed(String),
    ReplayDetected(String),
    InsufficientBalance { need: u64, have: u64 },
    SessionNotFound(String),
    SessionClosed(String),
    InvalidBearer,
    RelayError(String),
    RpcError(String),
    StoreError(StoreError),
}

/// Failures of the persistent store.
#[derive(Debug, Clone, PartialEq, Eq)]
pub enum StoreError {
    Database(String),
    NotFound(String),
    Conflict(String),
}

/// Failures while loading or checking the configuration.
#[derive(Debug, Clone, PartialEq, Eq)]
pub enum ConfigError {
    Parse(String),
    Validation(String),
    /// Reading the configuration file failed; the text is the I/O error's message.
    Io(String),
}

/// Failures while parsing a human-readable token amount.
#[derive(Debug, Clone, PartialEq, Eq)]
pub enum ParseError {
    InvalidFormat(String),
    ExcessPrecision { fractional_digits: usize, decimals: u8 },
}

/// The message of a store error.
pub open spec fn store_error_text(e: StoreError) -> Seq<char> {
    match e {
        StoreError::Database(m) => "database error: "@ + m@,
        StoreError::NotFound(m) => "not found: "@ + m@,
        StoreError::Conflict(m) => "conflict: "@ + m@,
    }
}

/// The message of a payment error.
pub open spec fn payment_error_text(e: PaymentError) -> Seq<char> {
    match e {
        PaymentError::VerificationFailed(m) => "verification failed: "@ + m@,
        PaymentError::ReplayDetected(m) => "replay detected: signature "@ + m@ + " already consumed"@,
        PaymentError::InsufficientBalance { need, have } => "insufficient balance: need "@ + decimal_text(
            need as nat,
        ) + ", have "@ + decimal_text(have as nat),
        PaymentError::SessionNotFound(m) => "session not found: "@ + m@,
        PaymentError::SessionClosed(m) => "session closed: "@ + m@,
        PaymentError::InvalidBearer => "invalid bearer token"@,
        PaymentError::RelayError(m) => "relay error: "@ + m@,
        PaymentError::RpcError(m) => "rpc error: "@ + m@,
        PaymentError::StoreError(e) => "store error: "@ + store_error_text(e),
    }
}

/// The message of a configuration error.
pub open spec fn config_error_text(e: ConfigError) -> Seq<char> {
    match e {
        ConfigError::Parse(m) => "parse error: "@ + m@,
        ConfigError::Validation(m) => "validation error: "@ + m@,
        ConfigError::Io(m) => "io error: "@ + m@,
    }
}

/// The message of an amount parse error.
pub open spec fn parse_error_text(e: ParseError) -> Seq<char> {
    match e {
        ParseError::InvalidFormat(m) => "invalid amount format: "@ + m@,
        ParseError::ExcessPrecision { fractional_digits, decimals } => "excess precision: "@
            + decimal_text(fractional_digits as nat) + " fractional digits for "@ + decimal_text(
            decimals as nat,
        ) + " decimal token"@,
    }
}

/// `prefix` followed by `body`.
fn joined(prefix: &str, body: &str) -> (r: String)
    ensures
        r@ == prefix@ + body@,
{
    let mut s = String::from_str(prefix);
    s.append(body);
    s
}

impl StoreError {
    /// The human-readable message of this error.
    pub fn message(&self) -> (r: String)
        ensures
            r@ == store_error_text(*self),
    {
        match self {
            StoreError::Database(m) => joined("database error: ", m.as_str()),
            StoreError::NotFound(m) => joined("not found: ", m.as_str()),
            StoreError::Conflict(m) => joined("conflict: ", m.as_str()),
        }
    }
}

impl PaymentError {
    /// The human-readable message of this error.
    pub fn message(&self) -> (r: String)
        ensures
            r@ == payment_error_text(*self),
    {
        match self {
            PaymentError::VerificationFailed(m) => joined("verification failed: ", m.as_str()),
            PaymentError::ReplayDetected(m) => {
                let mut s = joined("replay detected: signature ", m.as_str());
                s.append(" already consumed");
                s
            },
            PaymentError::InsufficientBalance { need, have } => {
                let mut s = String::from_str("insufficient balance: need ");
                push_decimal(&mut s, *need);
                s.append(", have ");
                push_decimal(&mut s, *have);
                s
            },
            PaymentError::SessionNotFound(m) => joined("session not found: ", m.as_str()),
            PaymentError::SessionClosed(m) => joined("session closed: ", m.as_str()),
            PaymentError::InvalidBearer => String::from_str("invalid bearer token"),
            PaymentError::RelayError(m) => joined("relay error: ", m.as_str()),
            PaymentError::RpcError(m) => joined("rpc error: ", m.as_str()),
            PaymentError::StoreError(e) => {
                let inner = e.message();
                joined("store error: ", inner.as_str())
            },
        }
    }
}

impl ConfigError {
    /// The human-readable message of this error.
    pub fn message(&self) -> (r: String)
        ensures
            r@ == config_error_text(*self),
    {
        match self {
            ConfigError::Parse(m) => joined("parse error: ", m.as_str()),
            ConfigError::Validation(m) => joined("validation error: ", m.as_str()),
            ConfigError::Io(m) => joined("io error: ", m.as_str()),
        }
    }
}

impl ParseError {
    /// The human-readable message of this error.
    pub fn message(&self) -> (r: String)
        ensures
            r@ == parse_error_text(*self),
    {
        match self {
            ParseError::InvalidFormat(m) => joined("invalid amount format: ", m.as_str()),
            ParseError::ExcessPrecision { fractional_digits, decimals } => {
                let mut s = String::from_str("excess precision: ");
                push_decimal(&mut s, *fractional_digits as u64);
                s.append(" fractional digits for ");
                push_decimal(&mut s, *decimals as u64);
                s.append(" decimal token");
                s
            },
        }
    }
}

} // verus!
