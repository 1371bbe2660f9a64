//! Shared value types: protocols, payment modes, receipts and proofs.
use vstd::prelude::*;
use crate::text::text;

verus! {

/// Payment mode for a route.
#[derive(Debug, Clone, PartialEq, Eq)]
pub enum PaymentMode {
    Charge,
    Session { deposit: String },
}

/// Route configuration with its payment mode.
#[derive(Debug, Clone, PartialEq, Eq)]
pub struct RouteConfig {
    pub path: String,
    pub method: Option<String>,
    pub price: String,
    pub mode: PaymentMode,
}

/// Protocol kind identifier.
#[derive(Debug, Clone, Copy, PartialEq, Eq, Structural)]
pub enum ProtocolKind {
    Mpp,
}

/// The lower-case wire name of a protocol.
pub open spec fn protocol_name(p: ProtocolKind) -> Seq<char> {
    match p {
        ProtocolKind::Mpp => "mpp"@,
    }
}

impl ProtocolKind {
    /// The lower-case wire name of this protocol (its `Display` text).
    pub fn name(&self) -> (r: String)
        ensures
            r@ == protocol_name(*self),
    {
        match self {
            ProtocolKind::Mpp => text("mpp"),
        }
    }
}

/// Payment receipt returned after successful verification.
#[derive(Debug, Clone, PartialEq, Eq)]
pub struct PaymentReceipt {
    pub protocol: ProtocolKind,
    pub signature: String,
    /// Amount in raw token units (e.g. "1000000").
    pub amount: String,
    /// Display amount (e.g. "1.0").
    pub ui_amount: String,
    pub mint: String,
    pub payer: String,
    pub recipient: String,
    pub timestamp: i64,
    /// Present for session open/close/top-up operations.
    pub session_id: Option<String>,
}

/// Payment proof variants, dispatched based on protocol negotiation.
#[derive(Debug, Clone, PartialEq, Eq)]
pub enum PaymentProof {
    MppCharge { signature: String },
}

impl PaymentProof {
    /// The protocol that this proof belongs to.
    pub fn protocol_kind(&self) -> (r: ProtocolKind)
        ensures
            r == ProtocolKind::Mpp,
    {
        match self {
            PaymentProof::MppCharge { .. } => ProtocolKind::Mpp,
        }
    }
}

/// The system clock's reading in whole seconds since the Unix epoch, or
/// nothing when the clock is set before the epoch.
///
/// Trusted: reads `SystemTime::now()`, measures it from `UNIX_EPOCH` with
/// `duration_since` (which fails exactly when the clock is before the epoch)
/// and takes the whole seconds of the duration; nothing is promised of the
/// reading itself.
#[verifier::external_body]
pub(crate) fn clock_reading() -> (r: Option<u64>) {
    std::time::SystemTime::now().duration_since(std::time::UNIX_EPOCH).ok().map(|d| d.as_secs())
}

/// The timestamp of a clock reading: its seconds as a signed 64-bit value
/// (two's complement reinterpretation), or zero for a clock set before the
/// epoch.
pub open spec fn reading_secs(reading: Option<u64>) -> i64 {
    match reading {
        Some(s) => s as i64,
        None => 0,
    }
}

/// The timestamp of a clock reading (see [`reading_secs`]).
pub fn secs_from_reading(reading: Option<u64>) -> (r: i64)
    ensures
        r == reading_secs(reading),
{
    match reading {
        Some(s) => {
            #[verifier::truncate]
            let r = s as i64;
            r
        },
        None => 0,
    }
}

/// The current Unix timestamp in seconds: the timestamp of the system
/// clock's reading. The reading itself depends on the time alone and is left
/// open.
pub fn now_secs() -> (r: i64)
    ensures
        exists|reading: Option<u64>| r == reading_secs(reading),
{
    let reading = clock_reading();
    secs_from_reading(reading)
}

} // verus!
