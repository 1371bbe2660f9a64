//! The fee relay: request and response bodies of the relay endpoints, the
//! relayers' plain decisions, and how relay failures are reported to clients.
use vstd::prelude::*;
use crate::address::{address_from_base58, address_text, base58_address_text, parse_address, parse_signature, signature_from_base58, zero_address, zero_address_bytes, Address};
use crate::amount::{amount_from_display, amount_reaches_scale, lemma_rejection_text, reaches_scale, rejection_text, TokenAmount};
use crate::error::{payment_error_text, PaymentError};
use crate::text::{contains_text, decimal_text, push_decimal, str_contains, text};
use crate::validation::RelayTransaction;

verus! {

/// Body of a successful relay.
#[derive(Debug, Clone, PartialEq, Eq)]
pub struct RelayResponse {
    pub signature: String,
}

/// Body of a failed relay request.
#[derive(Debug, Clone, PartialEq, Eq)]
pub struct RelayError {
    pub error: String,
}

/// Body of a request to prepare a transfer transaction.
#[derive(Debug, Clone, PartialEq, Eq)]
pub struct PrepareRequest {
    pub payer: String,
    pub amount: String,
}

/// A token that a relayer accepts fees in.
#[derive(Debug, Clone, PartialEq, Eq)]
pub struct TokenInfo {
    pub mint: Address,
    pub symbol: String,
    pub decimals: u8,
}

/// A relayer that does nothing. Clients must pay their own fees.
#[derive(Debug, Clone, Copy, PartialEq, Eq)]
pub struct DisabledRelayer;

impl DisabledRelayer {
    /// Refuses every transaction.
    pub fn sign_and_send(&self, _tx: &RelayTransaction) -> (r: Result<Vec<u8>, PaymentError>)
        ensures
            r matches Err(PaymentError::RelayError(m)) && m@ == "relay is disabled, clients must pay their own fees"@,
    {
        Err(PaymentError::RelayError(text("relay is disabled, clients must pay their own fees")))
    }

    /// The default (all-zero) address: there is no fee payer.
    pub fn fee_payer(&self) -> (r: Address)
        ensures
            r@ == zero_address_bytes(),
    {
        zero_address()
    }

    /// No fee tokens.
    pub fn supported_tokens(&self) -> (r: Result<Vec<TokenInfo>, PaymentError>)
        ensures
            r matches Ok(v) && v@.len() == 0,
    {
        Ok(Vec::new())
    }
}

/// The fee tokens of a built-in relayer: each allowed mint, in order, with no
/// symbol and the relayer's decimals.
pub fn builtin_supported_tokens(allowed_mints: &Vec<Address>, decimals: u8) -> (r: Vec<TokenInfo>)
    ensures
        r@.len() == allowed_mints@.len(),
        forall|i: int|
            0 <= i < r@.len() ==> (#[trigger] r@[i]).mint == allowed_mints@[i] && r@[i].symbol@.len() == 0
                && r@[i].decimals == decimals,
{
    let mut out: Vec<TokenInfo> = Vec::new();
    let mut i: usize = 0;
    while i < allowed_mints.len()
        invariant
            i <= allowed_mints@.len(),
            out@.len() == i,
            forall|k: int|
                0 <= k < i ==> (#[trigger] out@[k]).mint == allowed_mints@[k] && out@[k].symbol@.len() == 0
                    && out@[k].decimals == decimals,
        decreases allowed_mints.len() - i,
    {
        out.push(TokenInfo { mint: allowed_mints[i], symbol: String::new(), decimals });
        i = i + 1;
    }
    out
}

/// The built-in relayer's check on a requested transfer amount before it
/// prepares a transaction: a positive cap bounds the amount.
pub fn check_prepare_amount(max_transfer_amount: u64, amount_raw: u64) -> (r: Result<(), PaymentError>)
    ensures
        (max_transfer_amount > 0 && amount_raw > max_transfer_amount) ==> (r matches Err(PaymentError::RelayError(m))
            && m@ == "amount "@ + decimal_text(amount_raw as nat) + " exceeds max "@ + decimal_text(
            max_transfer_amount as nat,
        )),
        !(max_transfer_amount > 0 && amount_raw > max_transfer_amount) ==> r is Ok,
{
    if max_transfer_amount > 0 && amount_raw > max_transfer_amount {
        let mut m = text("amount ");
        push_decimal(&mut m, amount_raw);
        m.append(" exceeds max ");
        push_decimal(&mut m, max_transfer_amount);
        Err(PaymentError::RelayError(m))
    } else {
        Ok(())
    }
}

/// A relay refusal: HTTP status and body.
pub open spec fn refusal(r: (u16, RelayError), status: u16, message: Seq<char>) -> bool {
    r.0 == status && r.1.error@ == message
}

/// Whether the relay endpoints can serve: a relayer must be configured and
/// not disabled.
pub fn relay_availability(configured: bool, disabled: bool) -> (r: Result<(), (u16, RelayError)>)
    ensures
        !configured ==> (r matches Err(e) && refusal(e, 503, "relay not configured"@)),
        configured && disabled ==> (r matches Err(e) && refusal(e, 503, "relay is disabled"@)),
        configured && !disabled ==> r is Ok,
{
    if !configured {
        Err((503, RelayError { error: text("relay not configured") }))
    } else if disabled {
        Err((503, RelayError { error: text("relay is disabled") }))
    } else {
        Ok(())
    }
}

/// The refusal sent when a relay request is over its rate limit.
pub fn rate_limited() -> (r: (u16, RelayError))
    ensures
        refusal(r, 429, "rate limit exceeded"@),
{
    (429, RelayError { error: text("rate limit exceeded") })
}

/// How a failed submission is reported to the client: rejected transactions
/// (failed validation or an expired blockhash) as 400, transactions that
/// already landed as 409, anything else as 502 with the error text.
pub open spec fn relay_failure_spec(err: Seq<char>) -> (u16, Seq<char>) {
    if contains_text(err, "validation failed"@) || contains_text(err, "expired"@) {
        (400, "transaction rejected"@)
    } else if contains_text(err, "already been processed"@) {
        (409, "transaction already processed"@)
    } else {
        (502, "relay submission failed: "@ + err)
    }
}

/// The client response for a failed submission, from the error's message.
pub fn relay_failure_response(err: &str) -> (r: (u16, RelayError))
    ensures
        refusal(r, relay_failure_spec(err@).0, relay_failure_spec(err@).1),
{
    if str_contains(err, "validation failed") || str_contains(err, "expired") {
        (400, RelayError { error: text("transaction rejected") })
    } else if str_contains(err, "already been processed") {
        (409, RelayError { error: text("transaction already processed") })
    } else {
        let mut m = text("relay submission failed: ");
        m.append(err);
        (502, RelayError { error: m })
    }
}

/// The client response for a failed prepare: an amount over the cap is the
/// client's fault (400), anything else is the upstream's (502).
pub fn prepare_failure_response(err: &str) -> (r: (u16, RelayError))
    ensures
        r.0 == (if contains_text(err@, "exceeds"@) {
            400u16
        } else {
            502u16
        }),
        r.1.error@ == "prepare failed: "@ + err@,
{
    let status: u16 = if str_contains(err, "exceeds") {
        400
    } else {
        502
    };
    let mut m = text("prepare failed: ");
    m.append(err);
    (status, RelayError { error: m })
}

/// The key that relay requests are rate limited by: the second account of the
/// transaction (the token authority by convention), or empty.
pub fn relay_client_key(tx: &RelayTransaction) -> (r: String)
    ensures
        tx.account_keys@.len() > 1 ==> r@ == base58_address_text(tx.account_keys@[1]@),
        tx.account_keys@.len() <= 1 ==> r@.len() == 0,
{
    if tx.account_keys.len() > 1 {
        address_text(&tx.account_keys[1])
    } else {
        String::new()
    }
}

/// What parsing a prepare request gives: a payer that is not an address is
/// refused first, then an amount that does not parse.
pub open spec fn prepare_outcome(
    payer: Seq<char>,
    amount: Seq<char>,
    decimals: u8,
    r: Result<(Address, u64), (u16, RelayError)>,
) -> bool {
    match address_from_base58(payer) {
        Err(_) => r matches Err(e) && refusal(e, 400, "invalid payer pubkey: "@ + payer),
        Ok(p) => match amount_from_display(amount, decimals) {
            Ok(raw) => r matches Ok((q, a)) && q@ == p && a == raw,
            Err(rej) => r matches Err(e) && refusal(
                e,
                400,
                "invalid amount: "@ + rejection_text(rej, amount, decimals),
            ),
        },
    }
}

/// [`parse_prepare_request`] on every request: `None` exactly where it is
/// not defined, a payer that is an address with an amount that reaches
/// beyond the 19 decimals a `u64` scale can hold; else its result.
pub fn parse_prepare_request_in_scale(req: &PrepareRequest, mint: Address, decimals: u8) -> (r:
    Option<Result<(Address, u64), (u16, RelayError)>>)
    ensures
        r is None <==> (address_from_base58(req.payer@) is Ok && decimals > 19
            && amount_reaches_scale(req.amount@, decimals)),
        r matches Some(x) ==> prepare_outcome(req.payer@, req.amount@, decimals, x),
{
    if decimals > 19 && reaches_scale(req.amount.as_str(), decimals) {
        if parse_address(req.payer.as_str()).is_ok() {
            return None;
        }
    }
    Some(parse_prepare_request(req, mint, decimals))
}

/// Reads a prepare request: the payer's address and the amount in raw units.
/// A bad payer or amount is the client's fault (400). Once the payer is an
/// address, scaling an amount with digits beyond the 19th decimal overflows
/// `u64`, so such an amount is not admitted here (see
/// [`parse_prepare_request_in_scale`]).
pub fn parse_prepare_request(req: &PrepareRequest, mint: Address, decimals: u8) -> (r: Result<
    (Address, u64),
    (u16, RelayError),
>)
    requires
        address_from_base58(req.payer@) is Ok ==> decimals <= 19 || !amount_reaches_scale(
            req.amount@,
            decimals,
        ),
    ensures
        prepare_outcome(req.payer@, req.amount@, decimals, r),
{
    let payer = match parse_address(req.payer.as_str()) {
        Ok(p) => p,
        Err(_) => {
            let mut m = text("invalid payer pubkey: ");
            m.append(req.payer.as_str());
            return Err((400, RelayError { error: m }));
        },
    };
    match TokenAmount::from_display(req.amount.as_str(), mint, decimals) {
        Ok(t) => Ok((payer, t.raw)),
        Err(e) => {
            proof {
                lemma_rejection_text(Err(e), req.amount@, mint, decimals);
            }
            let mut m = text("invalid amount: ");
            let detail = e.message();
            m.append(detail.as_str());
            Err((400, RelayError { error: m }))
        },
    }
}

/// The built-in relayer needs at least one allowed mint and one allowed recipient.
pub fn check_builtin_config(allowed_mints: &Vec<Address>, allowed_recipients: &Vec<Address>) -> (r: Result<
    (),
    PaymentError,
>)
    ensures
        allowed_mints@.len() == 0 ==> (r matches Err(PaymentError::RelayError(m)) && m@
            == "allowed_mints must not be empty"@),
        allowed_mints@.len() > 0 && allowed_recipients@.len() == 0 ==> (r matches Err(PaymentError::RelayError(m))
            && m@ == "allowed_recipients must not be empty"@),
        allowed_mints@.len() > 0 && allowed_recipients@.len() > 0 ==> r is Ok,
{
    if allowed_mints.len() == 0 {
        Err(PaymentError::RelayError(text("allowed_mints must not be empty")))
    } else if allowed_recipients.len() == 0 {
        Err(PaymentError::RelayError(text("allowed_recipients must not be empty")))
    } else {
        Ok(())
    }
}

/// The relayer's error for a transaction that failed validation.
pub fn validation_failure(e: &PaymentError) -> (r: PaymentError)
    ensures
        r matches PaymentError::RelayError(m) && m@ == "validation failed: "@ + payment_error_text(*e),
{
    let mut m = text("validation failed: ");
    let detail = e.message();
    m.append(detail.as_str());
    PaymentError::RelayError(m)
}

/// The relayer's error for a transaction whose blockhash is no longer valid.
pub fn expired_blockhash() -> (r: PaymentError)
    ensures
        r matches PaymentError::RelayError(m) && m@ == "transaction blockhash is expired"@,
{
    PaymentError::RelayError(text("transaction blockhash is expired"))
}

/// The outcome of an external relayer's `signAndSendTransaction` call, from
/// its JSON-RPC reply: the reply's `error` member (as JSON text) if there is
/// one, else its `result` string read as a transaction signature.
pub fn external_relay_reply(error: Option<String>, result: Option<String>) -> (r: Result<Vec<u8>, PaymentError>)
    ensures
        match error {
            Some(e) => r matches Err(PaymentError::RelayError(t)) && t@ == "kora error: "@ + e@,
            None => match result {
                None => r matches Err(PaymentError::RelayError(t)) && t@ == "missing result in kora response"@,
                Some(sig) => match signature_from_base58(sig@) {
                    Ok(b) => r matches Ok(v) && v@ == b,
                    Err(e) => r matches Err(PaymentError::RelayError(t)) && t@ == "invalid signature: "@ + e,
                },
            },
        },
{
    match error {
        Some(e) => {
            let mut m = text("kora error: ");
            m.append(e.as_str());
            Err(PaymentError::RelayError(m))
        },
        None => match result {
            None => Err(PaymentError::RelayError(text("missing result in kora response"))),
            Some(sig) => match parse_signature(sig.as_str()) {
                Ok(b) => Ok(b),
                Err(e) => {
                    let mut m = text("invalid signature: ");
                    m.append(e.as_str());
                    Err(PaymentError::RelayError(m))
                },
            },
        },
    }
}

} // verus!
