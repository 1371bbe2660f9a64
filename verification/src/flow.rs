//! The MPP handlers that move money, as state machines: checking a deposit
//! (a charge, a session opening or a top-up) and closing a session. Given
//! what its last request to the store or the chain returned, a flow says what
//! to ask next or how the request ends; the handler performs the requests.
use vstd::prelude::*;
use crate::address::{address_from_base58, address_text, base58_address_text, Address};
use crate::error::PaymentError;
use crate::ledger::{ConsumeResult, SessionState, SessionStatus};
use crate::ledger::remaining;
use crate::mpp::{
    after_refund_check, bearer_receipt, check_bearer, check_cached_top_up, check_minimum,
    check_refund_address, close_plan, close_receipt, debit_refusal, is_transfer_receipt, opt_view,
    opened_session, recovery_start, transfer_receipt, ClosePlan, RecoveryAction, RecoveryStart,
    RefundStatus,
};
use crate::address::signature_from_base58;
use crate::text::{decimal_text, u64_to_text};
use crate::transfer::VerifiedTransfer;
use crate::types::PaymentReceipt;

verus! {

/// Which payment a deposit flow checks.
#[derive(Debug, Clone, PartialEq, Eq)]
pub enum DepositKind {
    /// A one-off charge of at least `min_amount` raw units (0: any amount).
    Charge { min_amount: u64 },
    /// The deposit that opens a session of this id and bearer hash, refunding
    /// to `refund_address`, of at least `min_deposit` raw units (0: any).
    Open { session_id: String, bearer_hash: String, refund_address: String, min_deposit: u64 },
    /// A top-up of an existing session.
    TopUp { session_id: String },
}

/// Where a deposit flow stands.
#[derive(Debug, Clone, PartialEq, Eq)]
pub enum DepositStage {
    /// Waiting for the lookup of a receipt cached under the signature.
    Lookup,
    /// Waiting for the transfer check.
    Verify,
    /// Waiting for the consume of the signature, for a transfer of `amount`
    /// verified at time `now`.
    Consume { amount: u64, now: i64 },
    /// The consume was won; waiting for the session write, after which
    /// `receipt` is the answer.
    Record { receipt: PaymentReceipt },
    /// Finished.
    Done,
}

/// What a deposit flow asks for next.
#[derive(Debug, PartialEq, Eq)]
pub enum DepositAction {
    /// Look up the receipt cached under the flow's signature.
    LookupConsumed,
    /// Fetch the flow's transaction and find its transfer to the recipient.
    VerifyTransfer,
    /// Mark the flow's signature consumed, recording the protocol, raw amount
    /// and payer, and offering this receipt.
    Consume { protocol: &'static str, amount_text: String, payer: String, receipt: PaymentReceipt },
    /// Store this newly opened session.
    CreateSession(SessionState),
    /// Credit the session with this amount, if it is active.
    CreditSession { session_id: String, amount: u64 },
    /// The request ends with this result.
    Finish(Result<PaymentReceipt, PaymentError>),
}

/// What the last request of a deposit flow returned.
#[derive(Debug, PartialEq, Eq)]
pub enum DepositEvent {
    /// The cached receipt, if the signature was consumed before.
    Looked(Option<PaymentReceipt>),
    /// The transfer check's result, and the time at which it completed.
    Verified(Result<VerifiedTransfer, PaymentError>, i64),
    /// The consume's result.
    Consumed(ConsumeResult),
    /// The session was stored.
    Created,
    /// Whether the session was active and was credited.
    Credited(bool),
}

/// A deposit check in progress.
#[derive(Debug, Clone, PartialEq, Eq)]
pub struct DepositFlow {
    pub kind: DepositKind,
    /// The signature of the transaction carrying the payment.
    pub signature: String,
    pub recipient: Address,
    pub mint: Address,
    pub decimals: u8,
    pub stage: DepositStage,
}

/// The event each stage waits for.
pub open spec fn deposit_expects(kind: DepositKind, stage: DepositStage, event: DepositEvent) -> bool {
    match stage {
        DepositStage::Lookup => event is Looked,
        DepositStage::Verify => event is Verified,
        DepositStage::Consume { .. } => event is Consumed,
        DepositStage::Record { .. } => (kind is Open && event is Created) || (kind is TopUp && event is Credited),
        DepositStage::Done => false,
    }
}

/// The least amount a deposit must carry (0: any).
pub open spec fn deposit_minimum(kind: DepositKind) -> u64 {
    match kind {
        DepositKind::Charge { min_amount } => min_amount,
        DepositKind::Open { min_deposit, .. } => min_deposit,
        DepositKind::TopUp { .. } => 0,
    }
}

/// The protocol name a consumed signature is recorded under.
pub open spec fn deposit_protocol(kind: DepositKind) -> Seq<char> {
    match kind {
        DepositKind::Charge { .. } => "mpp-charge"@,
        DepositKind::Open { .. } => "mpp-session-deposit"@,
        DepositKind::TopUp { .. } => "mpp-session-topup"@,
    }
}

/// The session a deposit belongs to, if any.
pub open spec fn deposit_session(kind: DepositKind) -> Option<String> {
    match kind {
        DepositKind::Charge { .. } => None,
        DepositKind::Open { session_id, .. } => Some(session_id),
        DepositKind::TopUp { session_id } => Some(session_id),
    }
}

/// Whether the step after `event` renders a receipt's display amount, which
/// scales by `10^decimals`: only for a verified transfer that meets the minimum.
pub open spec fn deposit_renders(kind: DepositKind, event: DepositEvent) -> bool {
    event matches DepositEvent::Verified(Ok(v), _) && !(deposit_minimum(kind) > 0 && v.amount < deposit_minimum(kind))
}

/// The minimum of a deposit is the one its kind states: an opening deposit
/// or a charge below its stated minimum (`min_deposit`, `min_amount`) is
/// refused, naming that minimum, and one at or above it is not; a top-up is
/// never refused for its amount and renders its receipt.
pub proof fn law_deposit_minimum(kind: DepositKind, v: VerifiedTransfer, now: i64)
    ensures
        kind is Open ==> deposit_minimum(kind) == kind->Open_min_deposit && (deposit_renders(
            kind,
            DepositEvent::Verified(Ok(v), now),
        ) == (v.amount >= kind->Open_min_deposit)),
        kind is Charge ==> deposit_minimum(kind) == kind->Charge_min_amount && (deposit_renders(
            kind,
            DepositEvent::Verified(Ok(v), now),
        ) == (v.amount >= kind->Charge_min_amount)),
        kind is TopUp ==> !(deposit_minimum(kind) > 0 && v.amount < deposit_minimum(kind)) && deposit_renders(
            kind,
            DepositEvent::Verified(Ok(v), now),
        ),
{
}

/// The flow's fixed terms are those of `f`.
pub open spec fn same_terms(f: DepositFlow, g: DepositFlow) -> bool {
    f.kind == g.kind && f.signature == g.signature && f.recipient == g.recipient && f.mint == g.mint
        && f.decimals == g.decimals
}

impl DepositFlow {
    /// A flow checking the payment made by `signature`; it starts by looking
    /// for a receipt cached under the signature.
    pub fn new(kind: DepositKind, signature: String, recipient: Address, mint: Address, decimals: u8) -> (r: (
        DepositFlow,
        DepositAction,
    ))
        ensures
            r.0 == (DepositFlow { kind, signature, recipient, mint, decimals, stage: DepositStage::Lookup }),
            r.1 == DepositAction::LookupConsumed,
    {
        (DepositFlow { kind, signature, recipient, mint, decimals, stage: DepositStage::Lookup }, DepositAction::LookupConsumed)
    }

    /// Whether the flow waits for `event`.
    pub fn expects(&self, event: &DepositEvent) -> (r: bool)
        ensures
            r == deposit_expects(self.kind, self.stage, *event),
    {
        match self.stage {
            DepositStage::Lookup => matches!(event, DepositEvent::Looked(_)),
            DepositStage::Verify => matches!(event, DepositEvent::Verified(..)),
            DepositStage::Consume { .. } => matches!(event, DepositEvent::Consumed(_)),
            DepositStage::Record { .. } => (matches!(self.kind, DepositKind::Open { .. }) && matches!(
                event,
                DepositEvent::Created
            )) || (matches!(self.kind, DepositKind::TopUp { .. }) && matches!(event, DepositEvent::Credited(_))),
            DepositStage::Done => false,
        }
    }

    /// Whether the step after `event` renders a receipt (see [`deposit_renders`]).
    pub fn renders(&self, event: &DepositEvent) -> (r: bool)
        ensures
            r == deposit_renders(self.kind, *event),
            // a deposit or charge below its stated minimum renders nothing
            event matches DepositEvent::Verified(Ok(v), _) && self.kind is Open && v.amount
                < self.kind->Open_min_deposit ==> !r,
            event matches DepositEvent::Verified(Ok(v), _) && self.kind is Charge && v.amount
                < self.kind->Charge_min_amount ==> !r,
    {
        proof {
            if let DepositEvent::Verified(Ok(v), now) = *event {
                law_deposit_minimum(self.kind, v, now);
            }
        }
        let min = match &self.kind {
            DepositKind::Charge { min_amount } => *min_amount,
            DepositKind::Open { min_deposit, .. } => *min_deposit,
            DepositKind::TopUp { .. } => 0,
        };
        match event {
            DepositEvent::Verified(Ok(v), _) => !(min > 0 && v.amount < min),
            _ => false,
        }
    }

    /// The next step after `event`. A receipt cached under the signature
    /// answers at once (for a top-up, only if it belongs to the same
    /// session); otherwise the transfer is checked against the minimum, the
    /// signature is consumed, and only the request that wins the consume
    /// opens or credits the session.
    pub fn step(self, event: DepositEvent) -> (r: (DepositFlow, DepositAction))
        requires
            deposit_renders(self.kind, event) ==> self.decimals <= 19,
            deposit_expects(self.kind, self.stage, event),
        ensures
            same_terms(r.0, self),
            // a cached receipt ends the flow
            event matches DepositEvent::Looked(Some(c)) ==> r.0.stage == DepositStage::Done && (if !(self.kind is TopUp)
                || opt_view(c.session_id) == Some(self.kind->TopUp_session_id@) {
                r.1 == DepositAction::Finish(Ok(c))
            } else {
                r.1 matches DepositAction::Finish(Err(PaymentError::ReplayDetected(t))) && t@
                    == "signature already used for a different session"@
            }),
            // a fresh signature: check the refund address of an opening, then the transfer
            event == DepositEvent::Looked(None) ==> match self.kind {
                DepositKind::Open { refund_address, .. } => match address_from_base58(refund_address@) {
                    Err(e) => r.0.stage == DepositStage::Done && (r.1 matches DepositAction::Finish(
                        Err(PaymentError::VerificationFailed(t)),
                    ) && t@ == "invalid refund address: "@ + e),
                    Ok(_) => r.0.stage == DepositStage::Verify && r.1 == DepositAction::VerifyTransfer,
                },
                _ => r.0.stage == DepositStage::Verify && r.1 == DepositAction::VerifyTransfer,
            },
            // a failed transfer check ends the flow with its error
            event matches DepositEvent::Verified(Err(e), _) ==> r.0.stage == DepositStage::Done && r.1
                == DepositAction::Finish(Err(e)),
            // a verified transfer below the minimum ends the flow; otherwise it is consumed
            event matches DepositEvent::Verified(Ok(v), now) ==> if deposit_minimum(self.kind) > 0 && v.amount
                < deposit_minimum(self.kind) {
                r.0.stage == DepositStage::Done && r.1 == DepositAction::Finish(
                    Err(PaymentError::InsufficientBalance { need: deposit_minimum(self.kind), have: v.amount }),
                )
            } else {
                &&& r.0.stage == DepositStage::Consume { amount: v.amount, now }
                &&& r.1 matches DepositAction::Consume { protocol, amount_text, payer, receipt }
                &&& protocol@ == deposit_protocol(self.kind)
                &&& amount_text@ == decimal_text(v.amount as nat)
                &&& payer@ == base58_address_text(v.payer@)
                &&& is_transfer_receipt(
                    receipt,
                    self.signature@,
                    v.amount,
                    self.decimals,
                    self.mint,
                    v.payer,
                    self.recipient,
                    now,
                    deposit_session(self.kind),
                )
            },
            // a lost consume answers with the receipt of the request that won it
            event matches DepositEvent::Consumed(ConsumeResult::AlreadyCached(c)) ==> r.0.stage
                == DepositStage::Done && r.1 == DepositAction::Finish(Ok(c)),
            // a won consume ends a charge, opens a session, or credits it
            event matches DepositEvent::Consumed(ConsumeResult::Consumed(c)) ==> match self.kind {
                DepositKind::Charge { .. } => r.0.stage == DepositStage::Done && r.1 == DepositAction::Finish(Ok(c)),
                DepositKind::Open { session_id, bearer_hash, refund_address, .. } => {
                    &&& r.0.stage == DepositStage::Record { receipt: c }
                    &&& r.1 matches DepositAction::CreateSession(s)
                    &&& s.mint@ == base58_address_text(self.mint@)
                    &&& s == (SessionState {
                        session_id,
                        bearer_hash,
                        deposit_amount: self.stage->Consume_amount,
                        spent: 0,
                        refund_address,
                        mint: s.mint,
                        decimals: self.decimals,
                        status: SessionStatus::Active,
                        refund_signature: None,
                        created_at: self.stage->Consume_now,
                        updated_at: self.stage->Consume_now,
                    })
                },
                DepositKind::TopUp { session_id } => r.0.stage == DepositStage::Record { receipt: c } && r.1
                    == DepositAction::CreditSession { session_id, amount: self.stage->Consume_amount },
            },
            // the session write ends the flow
            event == DepositEvent::Created || event == DepositEvent::Credited(true) ==> r.0.stage
                == DepositStage::Done && r.1 == DepositAction::Finish(Ok(self.stage->Record_receipt)),
            event == DepositEvent::Credited(false) ==> r.0.stage == DepositStage::Done && (r.1 matches DepositAction::Finish(
                Err(PaymentError::SessionClosed(t)),
            ) && t == self.kind->TopUp_session_id),
            // only the request that won the consume writes the session
            (r.1 is CreateSession || r.1 is CreditSession) ==> event matches DepositEvent::Consumed(
                ConsumeResult::Consumed(_),
            ),
            // an opening deposit or a charge below its stated minimum is refused,
            // naming that minimum and the amount, and nothing is consumed
            (event is Verified && event->Verified_0 is Ok && self.kind is Open && event->Verified_0->Ok_0.amount
                < self.kind->Open_min_deposit) ==> r.0.stage == DepositStage::Done && r.1 == DepositAction::Finish(
                Err((PaymentError::InsufficientBalance {
                    need: self.kind->Open_min_deposit,
                    have: event->Verified_0->Ok_0.amount,
                })),
            ),
            (event is Verified && event->Verified_0 is Ok && self.kind is Charge && event->Verified_0->Ok_0.amount
                < self.kind->Charge_min_amount) ==> r.0.stage == DepositStage::Done && r.1 == DepositAction::Finish(
                Err((PaymentError::InsufficientBalance {
                    need: self.kind->Charge_min_amount,
                    have: event->Verified_0->Ok_0.amount,
                })),
            ),
            // nothing is consumed for a transfer below the minimum
            r.1 is Consume ==> (event matches DepositEvent::Verified(Ok(v), _) && !(deposit_minimum(self.kind) > 0
                && v.amount < deposit_minimum(self.kind))),
    {
        proof {
            if let DepositEvent::Verified(Ok(v), now) = event {
                law_deposit_minimum(self.kind, v, now);
            }
        }
        let DepositFlow { kind, signature, recipient, mint, decimals, stage } = self;
        match event {
            DepositEvent::Looked(Some(c)) => {
                let a = match &kind {
                    DepositKind::TopUp { session_id } => DepositAction::Finish(check_cached_top_up(session_id.as_str(), c)),
                    _ => DepositAction::Finish(Ok(c)),
                };
                (DepositFlow { kind, signature, recipient, mint, decimals, stage: DepositStage::Done }, a)
            },
            DepositEvent::Looked(None) => {
                let refused = match &kind {
                    DepositKind::Open { refund_address, .. } => match check_refund_address(refund_address.as_str()) {
                        Err(e) => Some(e),
                        Ok(_) => None,
                    },
                    _ => None,
                };
                match refused {
                    Some(e) => (
                        DepositFlow { kind, signature, recipient, mint, decimals, stage: DepositStage::Done },
                        DepositAction::Finish(Err(e)),
                    ),
                    None => (
                        DepositFlow { kind, signature, recipient, mint, decimals, stage: DepositStage::Verify },
                        DepositAction::VerifyTransfer,
                    ),
                }
            },
            DepositEvent::Verified(Err(e), _) => (
                DepositFlow { kind, signature, recipient, mint, decimals, stage: DepositStage::Done },
                DepositAction::Finish(Err(e)),
            ),
            DepositEvent::Verified(Ok(v), now) => {
                let min = match &kind {
                    DepositKind::Charge { min_amount } => *min_amount,
                    DepositKind::Open { min_deposit, .. } => *min_deposit,
                    DepositKind::TopUp { .. } => 0,
                };
                match check_minimum(min, v.amount) {
                    Err(e) => {
                        return (
                            DepositFlow { kind, signature, recipient, mint, decimals, stage: DepositStage::Done },
                            DepositAction::Finish(Err(e)),
                        );
                    },
                    Ok(()) => {},
                }
                let (protocol, session): (&'static str, Option<String>) = match &kind {
                    DepositKind::Charge { .. } => ("mpp-charge", None),
                    DepositKind::Open { session_id, .. } => ("mpp-session-deposit", Some(session_id.clone())),
                    DepositKind::TopUp { session_id } => ("mpp-session-topup", Some(session_id.clone())),
                };
                let receipt = transfer_receipt(
                    signature.as_str(),
                    v.amount,
                    decimals,
                    &mint,
                    &v.payer,
                    &recipient,
                    now,
                    session,
                );
                let a = DepositAction::Consume {
                    protocol,
                    amount_text: u64_to_text(v.amount),
                    payer: address_text(&v.payer),
                    receipt,
                };
                (
                    DepositFlow {
                        kind,
                        signature,
                        recipient,
                        mint,
                        decimals,
                        stage: DepositStage::Consume { amount: v.amount, now },
                    },
                    a,
                )
            },
            DepositEvent::Consumed(ConsumeResult::AlreadyCached(c)) => (
                DepositFlow { kind, signature, recipient, mint, decimals, stage: DepositStage::Done },
                DepositAction::Finish(Ok(c)),
            ),
            DepositEvent::Consumed(ConsumeResult::Consumed(c)) => {
                let (amount, now) = match stage {
                    DepositStage::Consume { amount, now } => (amount, now),
                    _ => (0, 0),
                };
                let a = match &kind {
                    DepositKind::Charge { .. } => {
                        return (
                            DepositFlow { kind, signature, recipient, mint, decimals, stage: DepositStage::Done },
                            DepositAction::Finish(Ok(c)),
                        );
                    },
                    DepositKind::Open { session_id, bearer_hash, refund_address, .. } => DepositAction::CreateSession(
                        opened_session(
                            session_id.clone(),
                            bearer_hash.clone(),
                            amount,
                            refund_address.clone(),
                            address_text(&mint),
                            decimals,
                            now,
                        ),
                    ),
                    DepositKind::TopUp { session_id } => DepositAction::CreditSession {
                        session_id: session_id.clone(),
                        amount,
                    },
                };
                (DepositFlow { kind, signature, recipient, mint, decimals, stage: DepositStage::Record { receipt: c } }, a)
            },
            DepositEvent::Created | DepositEvent::Credited(true) => {
                let a = match stage {
                    DepositStage::Record { receipt } => DepositAction::Finish(Ok(receipt)),
                    _ => DepositAction::LookupConsumed,
                };
                (DepositFlow { kind, signature, recipient, mint, decimals, stage: DepositStage::Done }, a)
            },
            DepositEvent::Credited(false) => {
                let a = match &kind {
                    DepositKind::TopUp { session_id } => DepositAction::Finish(
                        Err(PaymentError::SessionClosed(session_id.clone())),
                    ),
                    _ => DepositAction::LookupConsumed,
                };
                (DepositFlow { kind, signature, recipient, mint, decimals, stage: DepositStage::Done }, a)
            },
        }
    }
}

/// Where a session close stands.
#[derive(Debug, Clone, PartialEq, Eq)]
pub enum CloseStage {
    /// Waiting for the session, to check the bearer against it.
    CheckBearer,
    /// Waiting for the session to be marked closing.
    Begin,
    /// Waiting for the refund of the unspent balance of `session`.
    Refund { session: SessionState },
    /// Waiting for the session to be marked closed; `session` is the row as
    /// marked closing, `refund_signature` the refund sent, if any.
    Finalize { session: SessionState, refund_signature: Option<String> },
    /// Finished.
    Done,
}

/// What a session close asks for next.
#[derive(Debug, PartialEq, Eq)]
pub enum CloseAction {
    /// Fetch the session.
    GetSession,
    /// Mark the session closing, if it is active.
    BeginClose,
    /// Send `amount` raw units to `to`.
    SendRefund { amount: u64, to: Address },
    /// Mark the session closed with this refund signature.
    FinalizeClose(Option<String>),
    /// The request ends with this result.
    Finish(Result<PaymentReceipt, PaymentError>),
}

/// What the last request of a session close returned.
#[derive(Debug, PartialEq, Eq)]
pub enum CloseEvent {
    /// The session, if it exists.
    Fetched(Option<SessionState>),
    /// The session as marked closing, or nothing if it was not active.
    Began(Option<SessionState>),
    /// The refund's signature, or why it could not be sent.
    Refunded(Result<String, PaymentError>),
    /// The session was marked closed.
    Finalized,
}

/// A session close in progress: the bearer presented must match the session,
/// the session is marked closing before any refund is sent, and the unspent
/// balance is refunded before the session is marked closed.
#[derive(Debug, Clone, PartialEq, Eq)]
pub struct CloseFlow {
    pub session_id: String,
    /// The hash of the bearer secret presented.
    pub bearer_hash: String,
    pub recipient: Address,
    pub decimals: u8,
    pub stage: CloseStage,
}

/// The event each stage of a close waits for.
pub open spec fn close_expects(stage: CloseStage, event: CloseEvent) -> bool {
    match stage {
        CloseStage::CheckBearer => event is Fetched,
        CloseStage::Begin => event is Began,
        CloseStage::Refund { .. } => event is Refunded,
        CloseStage::Finalize { .. } => event is Finalized,
        CloseStage::Done => false,
    }
}

impl CloseFlow {
    /// A close of `session_id` presenting a bearer of hash `bearer_hash`; it
    /// starts by fetching the session.
    pub fn new(session_id: String, bearer_hash: String, recipient: Address, decimals: u8) -> (r: (
        CloseFlow,
        CloseAction,
    ))
        ensures
            r.0 == (CloseFlow { session_id, bearer_hash, recipient, decimals, stage: CloseStage::CheckBearer }),
            r.1 == CloseAction::GetSession,
    {
        (CloseFlow { session_id, bearer_hash, recipient, decimals, stage: CloseStage::CheckBearer }, CloseAction::GetSession)
    }

    /// Whether the close waits for `event`.
    pub fn expects(&self, event: &CloseEvent) -> (r: bool)
        ensures
            r == close_expects(self.stage, *event),
    {
        match self.stage {
            CloseStage::CheckBearer => matches!(event, CloseEvent::Fetched(_)),
            CloseStage::Begin => matches!(event, CloseEvent::Began(_)),
            CloseStage::Refund { .. } => matches!(event, CloseEvent::Refunded(_)),
            CloseStage::Finalize { .. } => matches!(event, CloseEvent::Finalized),
            CloseStage::Done => false,
        }
    }

    /// The next step of the close after `event`.
    pub fn step(self, event: CloseEvent) -> (r: (CloseFlow, CloseAction))
        requires
            event == CloseEvent::Finalized ==> self.decimals <= 19,
            close_expects(self.stage, event),
        ensures
            r.0.session_id == self.session_id && r.0.bearer_hash == self.bearer_hash && r.0.recipient == self.recipient
                && r.0.decimals == self.decimals,
            // the bearer must match the stored session
            event matches CloseEvent::Fetched(s) ==> match s {
                None => r.0.stage == CloseStage::Done && (r.1 matches CloseAction::Finish(
                    Err(PaymentError::SessionNotFound(t)),
                ) && t@ == self.session_id@),
                Some(st) => if st.bearer_hash@ == self.bearer_hash@ {
                    r.0.stage == CloseStage::Begin && r.1 == CloseAction::BeginClose
                } else {
                    r.0.stage == CloseStage::Done && r.1 == CloseAction::Finish(Err(PaymentError::InvalidBearer))
                },
            },
            // a session that is no longer active is not closed again
            event == CloseEvent::Began(None) ==> r.0.stage == CloseStage::Done && (r.1 matches CloseAction::Finish(
                Err(PaymentError::SessionClosed(t)),
            ) && t@ == self.session_id@),
            // once closing, the unspent balance is refunded to the refund address
            event matches CloseEvent::Began(Some(st)) ==> if remaining(st) == 0 {
                r.0.stage == (CloseStage::Finalize { session: st, refund_signature: None }) && r.1
                    == CloseAction::FinalizeClose(None)
            } else {
                match address_from_base58(st.refund_address@) {
                    Ok(b) => r.0.stage == (CloseStage::Refund { session: st }) && (r.1 matches CloseAction::SendRefund {
                        amount,
                        to,
                    } && amount == remaining(st) && to@ == b),
                    Err(e) => r.0.stage == CloseStage::Done && (r.1 matches CloseAction::Finish(
                        Err(PaymentError::RelayError(t)),
                    ) && t@ == "invalid refund address: "@ + e),
                }
            },
            // a failed refund ends the close, leaving the session closing
            event matches CloseEvent::Refunded(Err(e)) ==> r.0.stage == CloseStage::Done && r.1 == CloseAction::Finish(
                Err(e),
            ),
            event matches CloseEvent::Refunded(Ok(sig)) ==> r.0.stage == (CloseStage::Finalize {
                session: self.stage->Refund_session,
                refund_signature: Some(sig),
            }) && r.1 == CloseAction::FinalizeClose(Some(sig)),
            // once closed, the receipt names the refund and the refunded amount
            event == CloseEvent::Finalized ==> r.0.stage == CloseStage::Done && (r.1 matches CloseAction::Finish(
                Ok(rc),
            ) && {
                let st = self.stage->Finalize_session;
                &&& match self.stage->Finalize_refund_signature {
                    Some(sg) => rc.signature@ == sg@,
                    None => rc.signature@ == "session-close:"@ + self.session_id@,
                }
                &&& rc.amount@ == decimal_text(remaining(st))
                &&& rc.mint == st.mint
                &&& rc.payer == st.refund_address
                &&& rc.recipient@ == base58_address_text(self.recipient@)
                &&& rc.timestamp == st.updated_at
                &&& opt_view(rc.session_id) == Some(self.session_id@)
            }),
            // a refund is sent only for a session just marked closing
            r.1 is SendRefund ==> event matches CloseEvent::Began(Some(_)),
    {
        let CloseFlow { session_id, bearer_hash, recipient, decimals, stage } = self;
        match event {
            CloseEvent::Fetched(s) => match check_bearer(session_id.as_str(), s, bearer_hash.as_str()) {
                Err(e) => (
                    CloseFlow { session_id, bearer_hash, recipient, decimals, stage: CloseStage::Done },
                    CloseAction::Finish(Err(e)),
                ),
                Ok(_) => (
                    CloseFlow { session_id, bearer_hash, recipient, decimals, stage: CloseStage::Begin },
                    CloseAction::BeginClose,
                ),
            },
            CloseEvent::Began(None) => {
                let e = PaymentError::SessionClosed(session_id.clone());
                (
                    CloseFlow { session_id, bearer_hash, recipient, decimals, stage: CloseStage::Done },
                    CloseAction::Finish(Err(e)),
                )
            },
            CloseEvent::Began(Some(st)) => match close_plan(&st) {
                Err(e) => (
                    CloseFlow { session_id, bearer_hash, recipient, decimals, stage: CloseStage::Done },
                    CloseAction::Finish(Err(e)),
                ),
                Ok(ClosePlan::NoRefund) => (
                    CloseFlow {
                        session_id,
                        bearer_hash,
                        recipient,
                        decimals,
                        stage: CloseStage::Finalize { session: st, refund_signature: None },
                    },
                    CloseAction::FinalizeClose(None),
                ),
                Ok(ClosePlan::Refund { amount, to }) => (
                    CloseFlow { session_id, bearer_hash, recipient, decimals, stage: CloseStage::Refund { session: st } },
                    CloseAction::SendRefund { amount, to },
                ),
            },
            CloseEvent::Refunded(Err(e)) => (
                CloseFlow { session_id, bearer_hash, recipient, decimals, stage: CloseStage::Done },
                CloseAction::Finish(Err(e)),
            ),
            CloseEvent::Refunded(Ok(sig)) => {
                let st = match stage {
                    CloseStage::Refund { session } => session,
                    _ => {
                        return (
                            CloseFlow { session_id, bearer_hash, recipient, decimals, stage: CloseStage::Done },
                            CloseAction::GetSession,
                        );
                    },
                };
                let again = sig.clone();
                (
                    CloseFlow {
                        session_id,
                        bearer_hash,
                        recipient,
                        decimals,
                        stage: CloseStage::Finalize { session: st, refund_signature: Some(sig) },
                    },
                    CloseAction::FinalizeClose(Some(again)),
                )
            },
            CloseEvent::Finalized => {
                let a = match stage {
                    CloseStage::Finalize { session, refund_signature } => CloseAction::Finish(
                        Ok(close_receipt(session_id.as_str(), &session, refund_signature, decimals, &recipient)),
                    ),
                    _ => CloseAction::GetSession,
                };
                (CloseFlow { session_id, bearer_hash, recipient, decimals, stage: CloseStage::Done }, a)
            },
        }
    }
}

/// What a request paid from a session balance asks for next.
#[derive(Debug, PartialEq, Eq)]
pub enum BearerAction {
    /// Fetch the session, to say why the debit was refused.
    GetSession,
    /// The request ends with this result.
    Finish(Result<PaymentReceipt, PaymentError>),
}

/// The answer to a debit of `cost` from a session, presenting a bearer of
/// hash `bearer_hash`: a receipt for the debited row, or (after fetching the
/// session) the reason of the refusal.
pub fn after_debit(
    session_id: &str,
    bearer_hash: &str,
    cost: u64,
    decimals: u8,
    recipient: &Address,
    debited: Option<SessionState>,
) -> (r: BearerAction)
    requires
        debited is Some ==> decimals <= 19,
    ensures
        debited is None ==> r == BearerAction::GetSession,
        debited matches Some(s) ==> (r matches BearerAction::Finish(Ok(rc)) && {
            &&& rc.signature@ == "session:"@ + session_id@
            &&& rc.amount@ == decimal_text(cost as nat)
            &&& rc.mint == s.mint
            &&& rc.payer == s.refund_address
            &&& rc.recipient@ == base58_address_text(recipient@)
            &&& rc.timestamp == s.updated_at
            &&& opt_view(rc.session_id) == Some(session_id@)
        }),
{
    match debited {
        Some(s) => BearerAction::Finish(Ok(bearer_receipt(session_id, &s, cost, decimals, recipient))),
        None => BearerAction::GetSession,
    }
}

/// What the recovery of a session stuck in closing asks for next.
#[derive(Debug, PartialEq, Eq)]
pub enum RecoveryStep {
    /// Ask whether the refund of this signature landed.
    ConfirmRefund(Vec<u8>),
    /// Send `amount` raw units of `mint` to `refund_to`.
    SendRefund { mint: Address, refund_to: Address, amount: u64 },
    /// Mark the session closed with this refund signature.
    FinalizeClose(Option<String>),
    /// Leave the session for the next recovery cycle; nothing was changed.
    Skip,
    /// The refund could not be sent; the session stays closing.
    GiveUp(PaymentError),
    /// The session is recovered.
    Recovered,
}

/// What the last request of a recovery returned.
#[derive(Debug, PartialEq, Eq)]
pub enum RecoveryEvent {
    /// Whether the earlier refund landed.
    Confirmation(RefundStatus),
    /// The new refund's signature, or why it could not be sent.
    Refunded(Result<String, PaymentError>),
    /// The session was marked closed.
    Finalized,
}

/// Where the recovery of a session stands.
#[derive(Debug, Clone, PartialEq, Eq)]
pub enum RecoveryStage {
    /// Waiting to hear whether the earlier refund landed.
    Confirm { mint: Address, refund_to: Address },
    /// Waiting for a refund to be sent.
    Refund,
    /// Waiting for the session to be marked closed.
    Finalize,
    /// Finished.
    Done,
}

/// The recovery of one session stuck in closing.
#[derive(Debug, Clone, PartialEq, Eq)]
pub struct RecoveryFlow {
    pub session: SessionState,
    pub stage: RecoveryStage,
}

/// The event each stage of a recovery waits for.
pub open spec fn recovery_expects(stage: RecoveryStage, event: RecoveryEvent) -> bool {
    match stage {
        RecoveryStage::Confirm { .. } => event is Confirmation,
        RecoveryStage::Refund => event is Refunded,
        RecoveryStage::Finalize => event is Finalized,
        RecoveryStage::Done => false,
    }
}

impl RecoveryFlow {
    /// How the recovery of `session` starts: a refund sent before is
    /// confirmed first, otherwise the unspent balance is refunded. A malformed
    /// mint, refund address or refund signature stops the whole recovery.
    pub fn start(session: SessionState) -> (r: Result<(RecoveryFlow, RecoveryStep), PaymentError>)
        ensures
            match address_from_base58(session.mint@) {
                Err(e) => r matches Err(PaymentError::RpcError(t)) && t@ == "invalid session mint: "@ + e,
                Ok(mint) => match address_from_base58(session.refund_address@) {
                    Err(e) => r matches Err(PaymentError::RpcError(t)) && t@ == "invalid refund address: "@ + e,
                    Ok(to) => match session.refund_signature {
                        Some(sig) => match signature_from_base58(sig@) {
                            Ok(b) => r matches Ok((f, a)) && f.session == session && (f.stage matches RecoveryStage::Confirm {
                                mint: m,
                                refund_to: t,
                            } && m@ == mint && t@ == to) && (a matches RecoveryStep::ConfirmRefund(g) && g@ == b),
                            Err(e) => r matches Err(PaymentError::RpcError(t)) && t@ == "invalid refund sig: "@ + e,
                        },
                        None => r matches Ok((f, a)) && f.session == session && f.stage == RecoveryStage::Refund && (
                        a matches RecoveryStep::SendRefund { mint: m, refund_to: t, amount } && m@ == mint && t@ == to
                            && amount == remaining(session)),
                    },
                },
            },
    {
        match recovery_start(&session) {
            Err(e) => Err(e),
            Ok(RecoveryStart::CheckRefund { mint, refund_to, signature }) => Ok(
                (
                    RecoveryFlow { session, stage: RecoveryStage::Confirm { mint, refund_to } },
                    RecoveryStep::ConfirmRefund(signature),
                ),
            ),
            Ok(RecoveryStart::SendRefund { mint, refund_to, amount }) => Ok(
                (RecoveryFlow { session, stage: RecoveryStage::Refund }, RecoveryStep::SendRefund { mint, refund_to, amount }),
            ),
        }
    }

    /// Whether the recovery waits for `event`.
    pub fn expects(&self, event: &RecoveryEvent) -> (r: bool)
        ensures
            r == recovery_expects(self.stage, *event),
    {
        match self.stage {
            RecoveryStage::Confirm { .. } => matches!(event, RecoveryEvent::Confirmation(_)),
            RecoveryStage::Refund => matches!(event, RecoveryEvent::Refunded(_)),
            RecoveryStage::Finalize => matches!(event, RecoveryEvent::Finalized),
            RecoveryStage::Done => false,
        }
    }

    /// The next step of the recovery after `event`. A confirmed refund closes
    /// the session with its signature; an unconfirmed one is sent again; an
    /// unanswered question leaves the session untouched, so that no refund is
    /// ever sent twice.
    pub fn step(self, event: RecoveryEvent) -> (r: (RecoveryFlow, RecoveryStep))
        requires
            recovery_expects(self.stage, event),
        ensures
            r.0.session == self.session,
            event == RecoveryEvent::Confirmation(RefundStatus::Confirmed) ==> r.0.stage == RecoveryStage::Finalize
                && r.1 == RecoveryStep::FinalizeClose(self.session.refund_signature),
            event == RecoveryEvent::Confirmation(RefundStatus::NotConfirmed) ==> r.0.stage == RecoveryStage::Refund
                && r.1 == (RecoveryStep::SendRefund {
                mint: self.stage->Confirm_mint,
                refund_to: self.stage->Confirm_refund_to,
                amount: remaining(self.session) as u64,
            }),
            event == RecoveryEvent::Confirmation(RefundStatus::Unknown) ==> r.0.stage == RecoveryStage::Done && r.1
                == RecoveryStep::Skip,
            event matches RecoveryEvent::Refunded(Ok(sig)) ==> r.0.stage == RecoveryStage::Finalize && r.1
                == RecoveryStep::FinalizeClose(Some(sig)),
            event matches RecoveryEvent::Refunded(Err(e)) ==> r.0.stage == RecoveryStage::Done && r.1
                == RecoveryStep::GiveUp(e),
            event == RecoveryEvent::Finalized ==> r.0.stage == RecoveryStage::Done && r.1 == RecoveryStep::Recovered,
            // a refund is sent again only when the earlier one is known not to have landed
            (self.stage is Confirm && r.1 is SendRefund) ==> event == RecoveryEvent::Confirmation(
                RefundStatus::NotConfirmed,
            ),
    {
        let RecoveryFlow { session, stage } = self;
        match event {
            RecoveryEvent::Confirmation(status) => {
                let (mint, refund_to) = match stage {
                    RecoveryStage::Confirm { mint, refund_to } => (mint, refund_to),
                    _ => {
                        return (RecoveryFlow { session, stage: RecoveryStage::Done }, RecoveryStep::Skip);
                    },
                };
                match after_refund_check(&session, status) {
                    RecoveryAction::Finalize(sig) => (
                        RecoveryFlow { session, stage: RecoveryStage::Finalize },
                        RecoveryStep::FinalizeClose(sig),
                    ),
                    RecoveryAction::Resend(amount) => (
                        RecoveryFlow { session, stage: RecoveryStage::Refund },
                        RecoveryStep::SendRefund { mint, refund_to, amount },
                    ),
                    RecoveryAction::Skip => (RecoveryFlow { session, stage: RecoveryStage::Done }, RecoveryStep::Skip),
                }
            },
            RecoveryEvent::Refunded(Ok(sig)) => (
                RecoveryFlow { session, stage: RecoveryStage::Finalize },
                RecoveryStep::FinalizeClose(Some(sig)),
            ),
            RecoveryEvent::Refunded(Err(e)) => (
                RecoveryFlow { session, stage: RecoveryStage::Done },
                RecoveryStep::GiveUp(e),
            ),
            RecoveryEvent::Finalized => (RecoveryFlow { session, stage: RecoveryStage::Done }, RecoveryStep::Recovered),
        }
    }
}

} // verus!
