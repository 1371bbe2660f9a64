//! The session ledger: session rows, the state transitions the store applies
//! to them, and the idempotent consumption of payment signatures.
use vstd::prelude::*;
use crate::error::StoreError;
use crate::text::{str_contains, str_eq, text};
use crate::types::PaymentReceipt;

verus! {

/// Lifecycle of a prepaid session.
#[derive(Debug, Clone, Copy, PartialEq, Eq, Structural)]
pub enum SessionStatus {
    Active,
    Closing,
    Closed,
}

/// Session state stored in the database.
#[derive(Debug, Clone, PartialEq, Eq)]
pub struct SessionState {
    pub session_id: String,
    pub bearer_hash: String,
    pub deposit_amount: u64,
    pub spent: u64,
    pub refund_address: String,
    pub mint: String,
    pub decimals: u8,
    pub status: SessionStatus,
    pub refund_signature: Option<String>,
    pub created_at: i64,
    pub updated_at: i64,
}

/// Result of an idempotent consume attempt.
#[derive(Debug, Clone, PartialEq, Eq)]
pub enum ConsumeResult {
    /// Signature was freshly consumed. Proceed with this receipt.
    Consumed(PaymentReceipt),
    /// Signature was already consumed. Return the cached receipt.
    AlreadyCached(PaymentReceipt),
}

/// The stored text of a status.
pub open spec fn status_text(s: SessionStatus) -> Seq<char> {
    match s {
        SessionStatus::Active => "active"@,
        SessionStatus::Closing => "closing"@,
        SessionStatus::Closed => "closed"@,
    }
}

/// How far along its lifecycle a status is.
pub open spec fn status_rank(s: SessionStatus) -> nat {
    match s {
        SessionStatus::Active => 0,
        SessionStatus::Closing => 1,
        SessionStatus::Closed => 2,
    }
}

/// The unspent balance of a session, in raw units (zero when overspent).
pub open spec fn remaining(s: SessionState) -> nat {
    if s.spent <= s.deposit_amount {
        (s.deposit_amount - s.spent) as nat
    } else {
        0
    }
}

/// The row after a debit of `cost` at time `now`, when the store accepts it:
/// the session is active, the bearer hash matches, and the unspent balance
/// covers the cost.
pub open spec fn debit_spec(s: SessionState, cost: u64, now: i64, bearer_hash: Seq<char>) -> Option<SessionState> {
    if s.status == SessionStatus::Active && s.bearer_hash@ == bearer_hash && s.deposit_amount - s.spent >= cost {
        Some(SessionState { spent: (s.spent + cost) as u64, updated_at: now, ..s })
    } else {
        None
    }
}

/// The row after crediting `amount` at time `now`, when the session is active.
pub open spec fn credit_spec(s: SessionState, amount: u64, now: i64) -> Option<SessionState> {
    if s.status == SessionStatus::Active {
        Some(SessionState { deposit_amount: (s.deposit_amount + amount) as u64, updated_at: now, ..s })
    } else {
        None
    }
}

/// The row after starting to close at time `now`, when the session is active.
pub open spec fn begin_close_spec(s: SessionState, now: i64) -> Option<SessionState> {
    if s.status == SessionStatus::Active {
        Some(SessionState { status: SessionStatus::Closing, updated_at: now, ..s })
    } else {
        None
    }
}

/// The row after finishing a close at time `now`, when the session is closing.
pub open spec fn finalize_close_spec(s: SessionState, refund_signature: Option<String>, now: i64) -> Option<
    SessionState,
> {
    if s.status == SessionStatus::Closing {
        Some(SessionState { status: SessionStatus::Closed, refund_signature, updated_at: now, ..s })
    } else {
        None
    }
}

/// The row after an update: the mutable columns come from `new`, the rest stay.
pub open spec fn update_spec(stored: SessionState, new: SessionState) -> SessionState {
    SessionState {
        bearer_hash: new.bearer_hash,
        deposit_amount: new.deposit_amount,
        spent: new.spent,
        refund_address: new.refund_address,
        status: new.status,
        refund_signature: new.refund_signature,
        updated_at: new.updated_at,
        ..stored
    }
}

/// The stored text of a status.
pub fn status_str(status: SessionStatus) -> (r: &'static str)
    ensures
        r@ == status_text(status),
{
    match status {
        SessionStatus::Active => "active",
        SessionStatus::Closing => "closing",
        SessionStatus::Closed => "closed",
    }
}

/// Reads a stored status text back.
pub fn parse_status(s: &str) -> (r: Result<SessionStatus, StoreError>)
    ensures
        match r {
            Ok(st) => status_text(st) == s@,
            Err(StoreError::Database(m)) => m@ == "unknown status: "@ + s@ && s@ != "active"@ && s@
                != "closing"@ && s@ != "closed"@,
            Err(_) => false,
        },
{
    if str_eq(s, "active") {
        Ok(SessionStatus::Active)
    } else if str_eq(s, "closing") {
        Ok(SessionStatus::Closing)
    } else if str_eq(s, "closed") {
        Ok(SessionStatus::Closed)
    } else {
        let mut m = text("unknown status: ");
        m.append(s);
        Err(StoreError::Database(m))
    }
}

/// Distinct statuses are stored as distinct texts, so reading a stored status
/// gives back the status that was stored.
pub proof fn law_status_text_injective(a: SessionStatus, b: SessionStatus)
    ensures
        status_text(a) == status_text(b) ==> a == b,
{
    reveal_strlit("active");
    reveal_strlit("closing");
    reveal_strlit("closed");
    assert("active"@[0] != "closed"@[0]);
    assert("active"@.len() != "closing"@.len());
    assert("closed"@.len() != "closing"@.len());
}

/// A copy of an optional text.
fn copy_opt_text(o: &Option<String>) -> (r: Option<String>)
    ensures
        r == *o,
{
    match o {
        Some(s) => Some(s.clone()),
        None => None,
    }
}

impl SessionState {
    /// A field-by-field copy of this row.
    pub fn duplicate(&self) -> (r: SessionState)
        ensures
            r == *self,
    {
        SessionState {
            session_id: self.session_id.clone(),
            bearer_hash: self.bearer_hash.clone(),
            deposit_amount: self.deposit_amount,
            spent: self.spent,
            refund_address: self.refund_address.clone(),
            mint: self.mint.clone(),
            decimals: self.decimals,
            status: self.status,
            refund_signature: copy_opt_text(&self.refund_signature),
            created_at: self.created_at,
            updated_at: self.updated_at,
        }
    }

    /// The unspent balance (`deposit_amount - spent`, or zero when overspent).
    pub fn remaining(&self) -> (r: u64)
        ensures
            r as nat == remaining(*self),
    {
        self.deposit_amount.saturating_sub(self.spent)
    }

    /// Deducts `cost` if the session is active, the bearer hash matches and the
    /// unspent balance covers it; `None` otherwise.
    pub fn debit(&self, cost: u64, now: i64, bearer_hash: &str) -> (r: Option<SessionState>)
        ensures
            r == debit_spec(*self, cost, now, bearer_hash@),
            // a closing or closed session is never debited
            self.status != SessionStatus::Active ==> r is None,
            r matches Some(t) ==> t.spent == self.spent + cost && t.status == SessionStatus::Active,
    {
        proof {
            law_debit_only_active(*self, cost, now, bearer_hash@);
        }
        if self.status == SessionStatus::Active && str_eq(self.bearer_hash.as_str(), bearer_hash)
            && self.spent <= self.deposit_amount && self.deposit_amount - self.spent >= cost {
            let mut next = self.duplicate();
            next.spent = self.spent + cost;
            next.updated_at = now;
            Some(next)
        } else {
            None
        }
    }

    /// Adds `amount` to the deposit if the session is active; `None` otherwise.
    pub fn credit(&self, amount: u64, now: i64) -> (r: Option<SessionState>)
        requires
            self.deposit_amount + amount <= u64::MAX,
        ensures
            r == credit_spec(*self, amount, now),
    {
        if self.status == SessionStatus::Active {
            let mut next = self.duplicate();
            next.deposit_amount = self.deposit_amount + amount;
            next.updated_at = now;
            Some(next)
        } else {
            None
        }
    }

    /// Moves an active session to closing; `None` if it is not active.
    pub fn begin_close(&self, now: i64) -> (r: Option<SessionState>)
        ensures
            r == begin_close_spec(*self, now),
    {
        if self.status == SessionStatus::Active {
            let mut next = self.duplicate();
            next.status = SessionStatus::Closing;
            next.updated_at = now;
            Some(next)
        } else {
            None
        }
    }

    /// Moves a closing session to closed, recording the refund signature;
    /// `None` if it is not closing.
    pub fn finalize_close(&self, refund_signature: Option<String>, now: i64) -> (r: Option<SessionState>)
        ensures
            r == finalize_close_spec(*self, refund_signature, now),
    {
        if self.status == SessionStatus::Closing {
            let mut next = self.duplicate();
            next.status = SessionStatus::Closed;
            next.refund_signature = refund_signature;
            next.updated_at = now;
            Some(next)
        } else {
            None
        }
    }

    /// This row with the mutable columns taken from `new`.
    pub fn apply_update(&self, new: &SessionState) -> (r: SessionState)
        ensures
            r == update_spec(*self, *new),
    {
        SessionState {
            session_id: self.session_id.clone(),
            bearer_hash: new.bearer_hash.clone(),
            deposit_amount: new.deposit_amount,
            spent: new.spent,
            refund_address: new.refund_address.clone(),
            mint: self.mint.clone(),
            decimals: self.decimals,
            status: new.status,
            refund_signature: copy_opt_text(&new.refund_signature),
            created_at: self.created_at,
            updated_at: new.updated_at,
        }
    }
}

/// A debit never lets the spent amount pass the deposit, and it lowers the
/// unspent balance by exactly the cost.
pub proof fn law_debit_within_deposit(s: SessionState, cost: u64, now: i64, bearer_hash: Seq<char>)
    ensures
        debit_spec(s, cost, now, bearer_hash) matches Some(t) ==> t.spent <= t.deposit_amount && remaining(t)
            + cost == remaining(s),
{
}

/// A debit goes through exactly for an active session presented with its
/// own bearer hash whose unspent balance covers the cost; a closing or closed
/// session is never debited, and a debit adds the cost to what was spent,
/// leaving the session active.
pub proof fn law_debit_only_active(s: SessionState, cost: u64, now: i64, bearer_hash: Seq<char>)
    ensures
        (debit_spec(s, cost, now, bearer_hash) is Some) == (s.status == SessionStatus::Active && s.bearer_hash@
            == bearer_hash && s.spent + cost <= s.deposit_amount),
        s.status != SessionStatus::Active ==> debit_spec(s, cost, now, bearer_hash) is None,
        debit_spec(s, cost, now, bearer_hash) matches Some(t) ==> t.spent == s.spent + cost && t.status
            == SessionStatus::Active && t.deposit_amount == s.deposit_amount,
{
}

/// A credit raises the unspent balance by exactly the amount.
pub proof fn law_credit_adds(s: SessionState, amount: u64, now: i64)
    requires
        s.deposit_amount + amount <= u64::MAX,
        s.spent <= s.deposit_amount,
    ensures
        credit_spec(s, amount, now) matches Some(t) ==> remaining(t) == remaining(s) + amount,
{
}

/// No transition moves a session back along its lifecycle, and a closed
/// session accepts no transition at all.
pub proof fn law_status_never_regresses(
    s: SessionState,
    x: u64,
    now: i64,
    bearer_hash: Seq<char>,
    sig: Option<String>,
)
    ensures
        debit_spec(s, x, now, bearer_hash) matches Some(t) ==> status_rank(t.status) >= status_rank(s.status),
        credit_spec(s, x, now) matches Some(t) ==> status_rank(t.status) >= status_rank(s.status),
        begin_close_spec(s, now) matches Some(t) ==> status_rank(t.status) > status_rank(s.status),
        finalize_close_spec(s, sig, now) matches Some(t) ==> status_rank(t.status) > status_rank(
            s.status,
        ),
        s.status == SessionStatus::Closed ==> debit_spec(s, x, now, bearer_hash) is None && credit_spec(
            s,
            x,
            now,
        ) is None && begin_close_spec(s, now) is None && finalize_close_spec(s, sig, now) is None,
{
}

/// A session can be closed only once: a second close finds it no longer active.
pub proof fn law_close_once(s: SessionState, now1: i64, now2: i64)
    ensures
        begin_close_spec(s, now1) matches Some(t) ==> begin_close_spec(t, now2) is None,
{
}

/// A failed debit leaves nothing to write; a successful one changes only the
/// spent amount and the update time.
pub proof fn law_debit_touches_only_spent(s: SessionState, cost: u64, now: i64, bearer_hash: Seq<char>)
    ensures
        debit_spec(s, cost, now, bearer_hash) matches Some(t) ==> t == (SessionState {
            spent: t.spent,
            updated_at: now,
            ..s
        }),
{
}

/// What the server owes a session's holder, in raw units: the deposit less
/// what was spent while the session is active or closing; nothing once it is
/// closed.
pub open spec fn liability(s: SessionState) -> int {
    match s.status {
        SessionStatus::Closed => 0,
        _ => s.deposit_amount - s.spent,
    }
}

/// The total liabilities over session rows: the sum of their liabilities,
/// what the escrow must be able to refund if every open session closed now.
pub open spec fn total_liability(rows: Seq<SessionState>) -> int
    decreases rows.len(),
{
    if rows.len() == 0 {
        0
    } else {
        total_liability(rows.drop_last()) + liability(rows.last())
    }
}

/// Each transition moves its session's liability by exactly the money it
/// moves: a debit lowers it by the cost, a credit raises it by the amount,
/// starting a close leaves it, and finishing the close (the refund sent)
/// settles it.
pub proof fn law_liability_transitions(
    s: SessionState,
    x: u64,
    now: i64,
    bearer_hash: Seq<char>,
    sig: Option<String>,
)
    ensures
        debit_spec(s, x, now, bearer_hash) matches Some(t) ==> liability(t) == liability(s) - x,
        s.deposit_amount + x <= u64::MAX ==> (credit_spec(s, x, now) matches Some(t) ==> liability(t)
            == liability(s) + x),
        begin_close_spec(s, now) matches Some(t) ==> liability(t) == liability(s),
        finalize_close_spec(s, sig, now) matches Some(t) ==> liability(t) == 0,
{
}

/// Replacing row `k` moves the total liabilities by the change of that row's
/// liability, and no other row counts toward the change.
pub proof fn law_total_liability_update(rows: Seq<SessionState>, k: int, t: SessionState)
    requires
        0 <= k < rows.len(),
    ensures
        total_liability(rows.update(k, t)) == total_liability(rows) - liability(rows[k]) + liability(
            t,
        ),
    decreases rows.len(),
{
    let u = rows.update(k, t);
    if k == rows.len() - 1 {
        assert(u.drop_last() =~= rows.drop_last());
    } else {
        assert(u.drop_last() =~= rows.drop_last().update(k, t));
        law_total_liability_update(rows.drop_last(), k, t);
    }
}

/// A debit of `cost` on one session lowers the total liabilities by exactly
/// `cost`; a credit of `amount` raises them by exactly `amount`.
pub proof fn law_total_liability_moves(
    rows: Seq<SessionState>,
    k: int,
    x: u64,
    now: i64,
    bearer_hash: Seq<char>,
)
    requires
        0 <= k < rows.len(),
    ensures
        debit_spec(rows[k], x, now, bearer_hash) matches Some(t) ==> total_liability(
            rows.update(k, t),
        ) == total_liability(rows) - x,
        rows[k].deposit_amount + x <= u64::MAX ==> (credit_spec(rows[k], x, now) matches Some(t)
            ==> total_liability(rows.update(k, t)) == total_liability(rows) + x),
{
    law_liability_transitions(rows[k], x, now, bearer_hash, None);
    if let Some(t) = debit_spec(rows[k], x, now, bearer_hash) {
        law_total_liability_update(rows, k, t);
    }
    if let Some(t) = credit_spec(rows[k], x, now) {
        law_total_liability_update(rows, k, t);
    }
}

/// Whether a failed insert of a consumed signature failed on the uniqueness
/// constraint (the signature was consumed before).
pub open spec fn is_duplicate_insert(err: Seq<char>) -> bool {
    crate::text::contains_text(err, "UNIQUE"@) || crate::text::contains_text(err, "constraint"@)
}

/// What an insert failure means for an idempotent consume.
pub enum InsertFailure {
    /// The signature was consumed before: look its receipt up.
    Duplicate,
    /// Any other database failure.
    Other(StoreError),
}

/// Classifies the text of a failed insert.
pub fn classify_insert_failure(err: &str) -> (r: InsertFailure)
    ensures
        match r {
            InsertFailure::Duplicate => is_duplicate_insert(err@),
            InsertFailure::Other(StoreError::Database(m)) => !is_duplicate_insert(err@) && m@ == err@,
            InsertFailure::Other(_) => false,
        },
{
    if str_contains(err, "UNIQUE") || str_contains(err, "constraint") {
        InsertFailure::Duplicate
    } else {
        InsertFailure::Other(StoreError::Database(text(err)))
    }
}

/// The outcome of consuming a signature that was consumed before: the cached
/// receipt if there is one, a conflict otherwise.
pub fn resolve_duplicate(signature: &str, cached: Option<PaymentReceipt>) -> (r: Result<ConsumeResult, StoreError>)
    ensures
        match cached {
            Some(c) => r == Ok::<ConsumeResult, StoreError>(ConsumeResult::AlreadyCached(c)),
            None => r matches Err(StoreError::Conflict(m)) && m@ == "signature already consumed: "@
                + signature@,
        },
{
    match cached {
        Some(c) => Ok(ConsumeResult::AlreadyCached(c)),
        None => {
            let mut m = text("signature already consumed: ");
            m.append(signature);
            Err(StoreError::Conflict(m))
        },
    }
}

/// Builds a session from the columns of a stored row, in the column order
/// `session_id, bearer_hash, deposit_amount, spent, refund_address, mint,
/// decimals, status, refund_signature, created_at, updated_at`. Integer
/// columns are stored as 64-bit signed values and read back by two's
/// complement reinterpretation (the deposit and spent amounts) or truncation
/// (the decimals).
pub fn session_from_columns(
    session_id: String,
    bearer_hash: String,
    deposit_amount: i64,
    spent: i64,
    refund_address: String,
    mint: String,
    decimals: i64,
    status: &str,
    refund_signature: Option<String>,
    created_at: i64,
    updated_at: i64,
) -> (r: Result<SessionState, StoreError>)
    ensures
        match r {
            Ok(st) => status_text(st.status) == status@ && st == (SessionState {
                session_id,
                bearer_hash,
                deposit_amount: deposit_amount as u64,
                spent: spent as u64,
                refund_address,
                mint,
                decimals: decimals as u8,
                status: st.status,
                refund_signature,
                created_at,
                updated_at,
            }),
            Err(StoreError::Database(m)) => m@ == "unknown status: "@ + status@ && status@ != "active"@ && status@
                != "closing"@ && status@ != "closed"@,
            Err(_) => false,
        },
{
    let st = match parse_status(status) {
        Ok(s) => s,
        Err(e) => {
            return Err(e);
        },
    };
    #[verifier::truncate]
    let deposit_amount = deposit_amount as u64;
    #[verifier::truncate]
    let spent = spent as u64;
    #[verifier::truncate]
    let decimals = decimals as u8;
    Ok(
        SessionState {
            session_id,
            bearer_hash,
            deposit_amount,
            spent,
            refund_address,
            mint,
            decimals,
            status: st,
            refund_signature,
            created_at,
            updated_at,
        },
    )
}

} // verus!
