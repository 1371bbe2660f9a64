//! The MPP payment protocol: charge and session challenges, credentials, and
//! the decisions of the charge and session handlers between their store and
//! network calls.
use vstd::prelude::*;
use crate::address::{address_from_base58, address_text, base58_address_text, parse_address, parse_signature, signature_from_base58, Address};
use crate::amount::{display_amount, display_text, TokenAmount};
use crate::error::PaymentError;
use crate::ledger::{remaining, SessionState, SessionStatus};
use crate::text::{decimal_text, str_eq, text, u64_to_text};
use crate::types::{PaymentReceipt, ProtocolKind};

verus! {

/// MPP charge challenge, returned in a 402 response.
#[derive(Debug, Clone, PartialEq, Eq)]
pub struct MppChallenge {
    /// Price in raw token units.
    pub amount: String,
    /// Price as display text.
    pub ui_amount: String,
    pub recipient: String,
    pub mint: String,
    pub decimals: u8,
    pub relay_url: String,
    pub fee_payer: Option<String>,
    pub platform_fee: Option<String>,
    pub platform_fee_ui_amount: Option<String>,
    pub platform_fee_recipient: Option<String>,
}

/// MPP session challenge, returned in a 402 response for session routes.
#[derive(Debug, Clone, PartialEq, Eq)]
pub struct MppSessionChallenge {
    /// Deposit in raw token units.
    pub deposit: String,
    /// Deposit as display text.
    pub deposit_ui_amount: String,
    pub recipient: String,
    pub mint: String,
    pub decimals: u8,
    pub relay_url: String,
    pub fee_payer: Option<String>,
    pub platform_fee: Option<String>,
    pub platform_fee_ui_amount: Option<String>,
    pub platform_fee_recipient: Option<String>,
}

/// MPP charge proof. The client presents this after payment.
#[derive(Debug, Clone, PartialEq, Eq)]
pub struct MppChargeProof {
    pub signature: String,
}

/// MPP session credential variants.
#[derive(Debug, Clone, PartialEq, Eq)]
pub enum MppSessionCredential {
    Open { signature: String, refund_address: String, bearer: String },
    Bearer { session_id: String, bearer: String },
    TopUp { session_id: String, signature: String },
    Close { session_id: String, bearer: String },
}

/// The plain part of the MPP handlers' shared context: who is paid, in which
/// token, and where clients relay their transactions.
#[derive(Debug, Clone, PartialEq, Eq)]
pub struct ChallengeTerms {
    pub recipient: Address,
    pub mint: Address,
    pub decimals: u8,
    pub relay_url: String,
    /// The relayer's fee payer, when a relayer is enabled.
    pub relayer_pubkey: Option<Address>,
    /// Who receives the platform fee, when one is configured.
    pub platform_fee_recipient: Option<Address>,
}

/// The base58 text of an optional address.
pub open spec fn opt_address_text(a: Option<Address>) -> Option<Seq<char>> {
    match a {
        Some(x) => Some(base58_address_text(x@)),
        None => None,
    }
}

/// The text view of an optional string.
pub open spec fn opt_view(o: Option<String>) -> Option<Seq<char>> {
    match o {
        Some(s) => Some(s@),
        None => None,
    }
}

fn opt_text(a: &Option<Address>) -> (r: Option<String>)
    ensures
        opt_view(r) == opt_address_text(*a),
{
    match a {
        Some(x) => Some(address_text(x)),
        None => None,
    }
}

/// The platform fee fields of a challenge: raw text, display text, recipient.
pub open spec fn fee_fields_ok(
    terms: ChallengeTerms,
    fee: u64,
    f: Option<String>,
    fu: Option<String>,
    fr: Option<String>,
) -> bool {
    match terms.platform_fee_recipient {
        Some(rcpt) => opt_view(f) == Some(decimal_text(fee as nat)) && opt_view(fu) == Some(
            display_text(fee, terms.decimals),
        ) && opt_view(fr) == Some(base58_address_text(rcpt@)),
        None => f is None && fu is None && fr is None,
    }
}

fn fee_fields(terms: &ChallengeTerms, fee: u64) -> (r: (Option<String>, Option<String>, Option<String>))
    requires
        terms.decimals <= 19,
    ensures
        fee_fields_ok(*terms, fee, r.0, r.1, r.2),
{
    match &terms.platform_fee_recipient {
        Some(rcpt) => (Some(u64_to_text(fee)), Some(display_amount(fee, terms.decimals)), Some(address_text(rcpt))),
        None => (None, None, None),
    }
}

impl ChallengeTerms {
    /// The charge challenge for `price`; `platform_fee` is the fee in raw
    /// units that the client must also pay when a fee recipient is configured.
    pub fn challenge(&self, price: &TokenAmount, platform_fee: u64) -> (r: MppChallenge)
        requires
            self.decimals <= 19,
            price.decimals <= 19,
        ensures
            r.amount@ == decimal_text(price.raw as nat),
            r.ui_amount@ == display_text(price.raw, price.decimals),
            r.recipient@ == base58_address_text(self.recipient@),
            r.mint@ == base58_address_text(self.mint@),
            r.decimals == self.decimals,
            r.relay_url@ == self.relay_url@,
            opt_view(r.fee_payer) == opt_address_text(self.relayer_pubkey),
            fee_fields_ok(*self, platform_fee, r.platform_fee, r.platform_fee_ui_amount, r.platform_fee_recipient),
    {
        let (platform_fee, platform_fee_ui_amount, platform_fee_recipient) = fee_fields(self, platform_fee);
        MppChallenge {
            amount: u64_to_text(price.raw),
            ui_amount: price.display(),
            recipient: address_text(&self.recipient),
            mint: address_text(&self.mint),
            decimals: self.decimals,
            relay_url: self.relay_url.clone(),
            fee_payer: opt_text(&self.relayer_pubkey),
            platform_fee,
            platform_fee_ui_amount,
            platform_fee_recipient,
        }
    }

    /// The session challenge for `deposit`; `platform_fee` as for [`Self::challenge`].
    pub fn session_challenge(&self, deposit: &TokenAmount, platform_fee: u64) -> (r: MppSessionChallenge)
        requires
            self.decimals <= 19,
            deposit.decimals <= 19,
        ensures
            r.deposit@ == decimal_text(deposit.raw as nat),
            r.deposit_ui_amount@ == display_text(deposit.raw, deposit.decimals),
            r.recipient@ == base58_address_text(self.recipient@),
            r.mint@ == base58_address_text(self.mint@),
            r.decimals == self.decimals,
            r.relay_url@ == self.relay_url@,
            opt_view(r.fee_payer) == opt_address_text(self.relayer_pubkey),
            fee_fields_ok(*self, platform_fee, r.platform_fee, r.platform_fee_ui_amount, r.platform_fee_recipient),
    {
        let (platform_fee, platform_fee_ui_amount, platform_fee_recipient) = fee_fields(self, platform_fee);
        MppSessionChallenge {
            deposit: u64_to_text(deposit.raw),
            deposit_ui_amount: deposit.display(),
            recipient: address_text(&self.recipient),
            mint: address_text(&self.mint),
            decimals: self.decimals,
            relay_url: self.relay_url.clone(),
            fee_payer: opt_text(&self.relayer_pubkey),
            platform_fee,
            platform_fee_ui_amount,
            platform_fee_recipient,
        }
    }
}

/// Rejects a payment below the required minimum (a minimum of zero accepts any).
pub fn check_minimum(min_amount: u64, have: u64) -> (r: Result<(), PaymentError>)
    ensures
        (min_amount > 0 && have < min_amount) ==> r == Err::<(), PaymentError>(
            PaymentError::InsufficientBalance { need: min_amount, have },
        ),
        !(min_amount > 0 && have < min_amount) ==> r is Ok,
{
    if min_amount > 0 && have < min_amount {
        Err(PaymentError::InsufficientBalance { need: min_amount, have })
    } else {
        Ok(())
    }
}

/// `r` is the receipt for a verified transfer of `amount` raw units from
/// `payer` to `recipient`, made by the transaction `signature`.
pub open spec fn is_transfer_receipt(
    r: PaymentReceipt,
    signature: Seq<char>,
    amount: u64,
    decimals: u8,
    mint: Address,
    payer: Address,
    recipient: Address,
    timestamp: i64,
    session_id: Option<String>,
) -> bool {
    &&& r.protocol == ProtocolKind::Mpp
    &&& r.signature@ == signature
    &&& r.amount@ == decimal_text(amount as nat)
    &&& r.ui_amount@ == display_text(amount, decimals)
    &&& r.mint@ == base58_address_text(mint@)
    &&& r.payer@ == base58_address_text(payer@)
    &&& r.recipient@ == base58_address_text(recipient@)
    &&& r.timestamp == timestamp
    &&& r.session_id == session_id
}

/// A receipt for a verified on-chain transfer of `amount` raw units.
pub fn transfer_receipt(
    signature: &str,
    amount: u64,
    decimals: u8,
    mint: &Address,
    payer: &Address,
    recipient: &Address,
    timestamp: i64,
    session_id: Option<String>,
) -> (r: PaymentReceipt)
    requires
        decimals <= 19,
    ensures
        is_transfer_receipt(r, signature@, amount, decimals, *mint, *payer, *recipient, timestamp, session_id),
{
    PaymentReceipt {
        protocol: ProtocolKind::Mpp,
        signature: text(signature),
        amount: u64_to_text(amount),
        ui_amount: display_amount(amount, decimals),
        mint: address_text(mint),
        payer: address_text(payer),
        recipient: address_text(recipient),
        timestamp,
        session_id,
    }
}

/// A session row freshly opened with a verified deposit.
pub fn opened_session(
    session_id: String,
    bearer_hash: String,
    deposit: u64,
    refund_address: String,
    mint: String,
    decimals: u8,
    now: i64,
) -> (r: SessionState)
    ensures
        r == (SessionState {
            session_id,
            bearer_hash,
            deposit_amount: deposit,
            spent: 0,
            refund_address,
            mint,
            decimals,
            status: SessionStatus::Active,
            refund_signature: None,
            created_at: now,
            updated_at: now,
        }),
{
    SessionState {
        session_id,
        bearer_hash,
        deposit_amount: deposit,
        spent: 0,
        refund_address,
        mint,
        decimals,
        status: SessionStatus::Active,
        refund_signature: None,
        created_at: now,
        updated_at: now,
    }
}

/// Checks that an opening credential's refund address is an address.
pub fn check_refund_address(refund_address: &str) -> (r: Result<Address, PaymentError>)
    ensures
        match address_from_base58(refund_address@) {
            Ok(b) => r matches Ok(a) && a@ == b,
            Err(e) => r matches Err(PaymentError::VerificationFailed(t)) && t@ == "invalid refund address: "@ + e,
        },
{
    match parse_address(refund_address) {
        Ok(a) => Ok(a),
        Err(e) => {
            let mut m = text("invalid refund address: ");
            m.append(e.as_str());
            Err(PaymentError::VerificationFailed(m))
        },
    }
}

/// Checks a bearer secret against the stored session: the session must exist
/// and its stored hash must equal the hash of the presented bearer.
pub fn check_bearer(session_id: &str, session: Option<SessionState>, provided_hash: &str) -> (r: Result<
    SessionState,
    PaymentError,
>)
    ensures
        match session {
            None => r matches Err(PaymentError::SessionNotFound(t)) && t@ == session_id@,
            Some(s) => if s.bearer_hash@ == provided_hash@ {
                r == Ok::<SessionState, PaymentError>(s)
            } else {
                r == Err::<SessionState, PaymentError>(PaymentError::InvalidBearer)
            },
        },
{
    match session {
        None => Err(PaymentError::SessionNotFound(text(session_id))),
        Some(s) => {
            if str_eq(s.bearer_hash.as_str(), provided_hash) {
                Ok(s)
            } else {
                Err(PaymentError::InvalidBearer)
            }
        },
    }
}

/// Why a debit was refused, from the session as it stands after the refusal:
/// missing, wrong bearer, not active, or not enough balance.
pub fn debit_refusal(session_id: &str, current: &Option<SessionState>, provided_hash: &str, cost: u64) -> (r:
    PaymentError)
    ensures
        match *current {
            None => r matches PaymentError::SessionNotFound(t) && t@ == session_id@,
            Some(s) => if s.bearer_hash@ != provided_hash@ {
                r == PaymentError::InvalidBearer
            } else if s.status != SessionStatus::Active {
                r matches PaymentError::SessionClosed(t) && t@ == session_id@
            } else {
                r == (PaymentError::InsufficientBalance { need: cost, have: remaining(s) as u64 })
            },
        },
{
    match current {
        None => PaymentError::SessionNotFound(text(session_id)),
        Some(s) => {
            if !str_eq(s.bearer_hash.as_str(), provided_hash) {
                PaymentError::InvalidBearer
            } else if s.status != SessionStatus::Active {
                PaymentError::SessionClosed(text(session_id))
            } else {
                PaymentError::InsufficientBalance { need: cost, have: s.remaining() }
            }
        },
    }
}

/// The receipt for a request paid from a session balance.
pub fn bearer_receipt(session_id: &str, session: &SessionState, cost: u64, decimals: u8, recipient: &Address) -> (r:
    PaymentReceipt)
    requires
        decimals <= 19,
    ensures
        r.protocol == ProtocolKind::Mpp,
        r.signature@ == "session:"@ + session_id@,
        r.amount@ == decimal_text(cost as nat),
        r.ui_amount@ == display_text(cost, decimals),
        r.mint == session.mint,
        r.payer == session.refund_address,
        r.recipient@ == base58_address_text(recipient@),
        r.timestamp == session.updated_at,
        opt_view(r.session_id) == Some(session_id@),
{
    let mut signature = text("session:");
    signature.append(session_id);
    PaymentReceipt {
        protocol: ProtocolKind::Mpp,
        signature,
        amount: u64_to_text(cost),
        ui_amount: display_amount(cost, decimals),
        mint: session.mint.clone(),
        payer: session.refund_address.clone(),
        recipient: address_text(recipient),
        timestamp: session.updated_at,
        session_id: Some(text(session_id)),
    }
}

/// A top-up signature that was consumed before is accepted again only for
/// the same session; then its cached receipt is returned.
pub fn check_cached_top_up(session_id: &str, cached: PaymentReceipt) -> (r: Result<PaymentReceipt, PaymentError>)
    ensures
        opt_view(cached.session_id) == Some(session_id@) ==> r == Ok::<PaymentReceipt, PaymentError>(cached),
        opt_view(cached.session_id) != Some(session_id@) ==> (r matches Err(PaymentError::ReplayDetected(t)) && t@
            == "signature already used for a different session"@),
{
    let same = match &cached.session_id {
        Some(s) => str_eq(s.as_str(), session_id),
        None => false,
    };
    if same {
        Ok(cached)
    } else {
        Err(PaymentError::ReplayDetected(text("signature already used for a different session")))
    }
}

/// What closing a session does once it is marked closing: refund the unspent
/// balance to the refund address, or nothing when the balance is zero.
#[derive(Debug, Clone, Copy, PartialEq, Eq)]
pub enum ClosePlan {
    NoRefund,
    Refund { amount: u64, to: Address },
}

/// The refund step of a close.
pub fn close_plan(session: &SessionState) -> (r: Result<ClosePlan, PaymentError>)
    ensures
        remaining(*session) == 0 ==> r == Ok::<ClosePlan, PaymentError>(ClosePlan::NoRefund),
        remaining(*session) > 0 ==> (match address_from_base58(session.refund_address@) {
            Ok(b) => r matches Ok(ClosePlan::Refund { amount, to }) && amount == remaining(*session) && to@ == b,
            Err(e) => r matches Err(PaymentError::RelayError(t)) && t@ == "invalid refund address: "@ + e,
        }),
{
    let amount = session.remaining();
    if amount == 0 {
        return Ok(ClosePlan::NoRefund);
    }
    match parse_address(session.refund_address.as_str()) {
        Ok(to) => Ok(ClosePlan::Refund { amount, to }),
        Err(e) => {
            let mut m = text("invalid refund address: ");
            m.append(e.as_str());
            Err(PaymentError::RelayError(m))
        },
    }
}

/// The receipt of a close: the refund transaction's signature when a refund
/// was sent (`session-close:{id}` otherwise), and the refunded amount.
pub fn close_receipt(
    session_id: &str,
    session: &SessionState,
    refund_signature: Option<String>,
    decimals: u8,
    recipient: &Address,
) -> (r: PaymentReceipt)
    requires
        decimals <= 19,
    ensures
        r.protocol == ProtocolKind::Mpp,
        match refund_signature {
            Some(s) => r.signature@ == s@,
            None => r.signature@ == "session-close:"@ + session_id@,
        },
        r.amount@ == decimal_text(remaining(*session)),
        r.ui_amount@ == display_text(remaining(*session) as u64, decimals),
        r.mint == session.mint,
        r.payer == session.refund_address,
        r.recipient@ == base58_address_text(recipient@),
        r.timestamp == session.updated_at,
        opt_view(r.session_id) == Some(session_id@),
{
    let amount = session.remaining();
    let signature = match refund_signature {
        Some(s) => s,
        None => {
            let mut s = text("session-close:");
            s.append(session_id);
            s
        },
    };
    PaymentReceipt {
        protocol: ProtocolKind::Mpp,
        signature,
        amount: u64_to_text(amount),
        ui_amount: display_amount(amount, decimals),
        mint: session.mint.clone(),
        payer: session.refund_address.clone(),
        recipient: address_text(recipient),
        timestamp: session.updated_at,
        session_id: Some(text(session_id)),
    }
}

/// The first step of recovering a session stuck in closing: confirm the
/// refund already sent, or send one.
#[derive(Debug, Clone, PartialEq, Eq)]
pub enum RecoveryStart {
    /// A refund was sent before: ask whether it landed.
    CheckRefund { mint: Address, refund_to: Address, signature: Vec<u8> },
    /// No refund was sent: send one for this amount.
    SendRefund { mint: Address, refund_to: Address, amount: u64 },
}

/// The answer to "did the refund land?".
#[derive(Debug, Clone, Copy, PartialEq, Eq)]
pub enum RefundStatus {
    Confirmed,
    NotConfirmed,
    Unknown,
}

/// What recovery does after asking whether a refund landed.
#[derive(Debug, Clone, PartialEq, Eq)]
pub enum RecoveryAction {
    /// Mark the session closed with this refund signature.
    Finalize(Option<String>),
    /// Send the refund again, for this amount.
    Resend(u64),
    /// Leave the session for the next recovery cycle.
    Skip,
}

/// How recovery of a stuck session starts; a malformed mint, refund address or
/// refund signature stops the whole recovery with an error.
pub fn recovery_start(session: &SessionState) -> (r: Result<RecoveryStart, PaymentError>)
    ensures
        match address_from_base58(session.mint@) {
            Err(e) => r matches Err(PaymentError::RpcError(t)) && t@ == "invalid session mint: "@ + e,
            Ok(mint) => match address_from_base58(session.refund_address@) {
                Err(e) => r matches Err(PaymentError::RpcError(t)) && t@ == "invalid refund address: "@ + e,
                Ok(to) => match session.refund_signature {
                    Some(sig) => match signature_from_base58(sig@) {
                        Ok(b) => r matches Ok(RecoveryStart::CheckRefund { mint: m, refund_to: t, signature })
                            && m@ == mint && t@ == to && signature@ == b,
                        Err(e) => r matches Err(PaymentError::RpcError(t)) && t@ == "invalid refund sig: "@ + e,
                    },
                    None => r matches Ok(RecoveryStart::SendRefund { mint: m, refund_to: t, amount }) && m@ == mint
                        && t@ == to && amount == remaining(*session),
                },
            },
        },
{
    let mint = match parse_address(session.mint.as_str()) {
        Ok(m) => m,
        Err(e) => {
            let mut m = text("invalid session mint: ");
            m.append(e.as_str());
            return Err(PaymentError::RpcError(m));
        },
    };
    let refund_to = match parse_address(session.refund_address.as_str()) {
        Ok(a) => a,
        Err(e) => {
            let mut m = text("invalid refund address: ");
            m.append(e.as_str());
            return Err(PaymentError::RpcError(m));
        },
    };
    match &session.refund_signature {
        Some(sig) => match parse_signature(sig.as_str()) {
            Ok(signature) => Ok(RecoveryStart::CheckRefund { mint, refund_to, signature }),
            Err(e) => {
                let mut m = text("invalid refund sig: ");
                m.append(e.as_str());
                Err(PaymentError::RpcError(m))
            },
        },
        None => Ok(RecoveryStart::SendRefund { mint, refund_to, amount: session.remaining() }),
    }
}

/// What recovery does once it knows whether the earlier refund landed: a
/// confirmed refund closes the session, an unconfirmed one is sent again, and
/// an unanswered question leaves the session for later (never refunding twice).
pub fn after_refund_check(session: &SessionState, status: RefundStatus) -> (r: RecoveryAction)
    ensures
        status == RefundStatus::Confirmed ==> r == RecoveryAction::Finalize(session.refund_signature),
        status == RefundStatus::NotConfirmed ==> r == RecoveryAction::Resend(remaining(*session) as u64),
        status == RefundStatus::Unknown ==> r == RecoveryAction::Skip,
{
    match status {
        RefundStatus::Confirmed => RecoveryAction::Finalize(
            match &session.refund_signature {
                Some(s) => Some(s.clone()),
                None => None,
            },
        ),
        RefundStatus::NotConfirmed => RecoveryAction::Resend(session.remaining()),
        RefundStatus::Unknown => RecoveryAction::Skip,
    }
}

/// The platform fee check once the fee transfer is found: it must cover the
/// expected fee.
pub fn check_platform_fee(expected_fee: u64, paid: u64) -> (r: Result<(), PaymentError>)
    ensures
        paid < expected_fee ==> (r matches Err(PaymentError::VerificationFailed(m)) && m@
            == "platform fee insufficient: expected "@ + decimal_text(expected_fee as nat) + ", got "@
            + decimal_text(paid as nat)),
        paid >= expected_fee ==> r is Ok,
{
    if paid < expected_fee {
        let mut m = text("platform fee insufficient: expected ");
        crate::text::push_decimal(&mut m, expected_fee);
        m.append(", got ");
        crate::text::push_decimal(&mut m, paid);
        Err(PaymentError::VerificationFailed(m))
    } else {
        Ok(())
    }
}

} // verus!
