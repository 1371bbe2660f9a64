//! Finding a verified SPL token transfer in a confirmed transaction's token
//! balance changes.
use vstd::prelude::*;
use crate::address::{address_from_base58, parse_address, parse_signature, same_address, signature_from_base58, zero_address, zero_address_bytes, Address};
use crate::error::PaymentError;
use crate::text::{chars_of, parse_u64_range, parse_u64_spec, text};

verus! {

/// A token account balance recorded before or after a transaction.
#[derive(Debug, Clone, PartialEq, Eq)]
pub struct TokenBalance {
    /// Index of the token account among the transaction's accounts.
    pub account_index: u8,
    /// Base58 text of the token mint.
    pub mint: String,
    /// Base58 text of the token account's owner, when recorded.
    pub owner: Option<String>,
    /// Raw amount as decimal text.
    pub amount: String,
}

/// What the transfer check reads of a confirmed transaction's status.
#[derive(Debug, Clone, PartialEq, Eq)]
pub struct TransactionMeta {
    /// The transaction failed on-chain.
    pub failed: bool,
    pub pre_token_balances: Option<Vec<TokenBalance>>,
    pub post_token_balances: Option<Vec<TokenBalance>>,
}

/// Result of verifying an on-chain transfer.
#[derive(Debug, Clone, Copy, PartialEq, Eq)]
pub struct VerifiedTransfer {
    pub amount: u64,
    pub payer: Address,
    pub recipient: Address,
    pub mint: Address,
}

/// The amount text read as raw units, zero when it does not parse.
pub open spec fn amount_or_zero(t: Seq<char>) -> u64 {
    match parse_u64_spec(t) {
        Some(v) => v,
        None => 0,
    }
}

/// The amount of the first balance for account `idx`, zero if none.
pub open spec fn amount_at_index(bals: Seq<TokenBalance>, idx: u8) -> u64
    decreases bals.len(),
{
    if bals.len() == 0 {
        0
    } else if bals[0].account_index == idx {
        amount_or_zero(bals[0].amount@)
    } else {
        amount_at_index(bals.drop_first(), idx)
    }
}

/// The text parses to exactly the address `a`.
pub open spec fn names_address(t: Seq<char>, a: Address) -> bool {
    address_from_base58(t) == Ok::<Seq<u8>, Seq<char>>(a@)
}

/// The payer of a transfer: scanning the balances before the transaction, the
/// owner of the first account of `mint` that lost tokens. The scan gives up
/// (no payer) at the first balance whose mint text, or, for the mint, whose
/// amount text, does not parse.
pub open spec fn find_sender_spec(pre: Seq<TokenBalance>, post: Seq<TokenBalance>, mint: Address) -> Option<Seq<u8>>
    decreases pre.len(),
{
    if pre.len() == 0 {
        None
    } else {
        let b = pre[0];
        match address_from_base58(b.mint@) {
            Err(_) => None,
            Ok(m) => if m != mint@ {
                find_sender_spec(pre.drop_first(), post, mint)
            } else {
                match parse_u64_spec(b.amount@) {
                    None => None,
                    Some(pre_amount) => if pre_amount > amount_at_index(post, b.account_index) && b.owner is Some {
                        match address_from_base58(b.owner->0@) {
                            Ok(o) => Some(o),
                            Err(_) => None,
                        }
                    } else {
                        find_sender_spec(pre.drop_first(), post, mint)
                    },
                }
            },
        }
    }
}

/// A balance after the transaction that credits `recipient` in `mint` more
/// than it held before.
pub open spec fn credits_recipient(b: TokenBalance, pre: Seq<TokenBalance>, recipient: Address, mint: Address) -> bool {
    &&& b.owner is Some
    &&& names_address(b.owner->0@, recipient)
    &&& names_address(b.mint@, mint)
    &&& amount_or_zero(b.amount@) > amount_at_index(pre, b.account_index)
}

/// The amount credited by the first balance after the transaction that
/// credits `recipient` in `mint`.
pub open spec fn credited_amount(post: Seq<TokenBalance>, pre: Seq<TokenBalance>, recipient: Address, mint: Address) -> Option<u64>
    decreases post.len(),
{
    if post.len() == 0 {
        None
    } else if credits_recipient(post[0], pre, recipient, mint) {
        Some((amount_or_zero(post[0].amount@) - amount_at_index(pre, post[0].account_index)) as u64)
    } else {
        credited_amount(post.drop_first(), pre, recipient, mint)
    }
}

/// The outcome of checking a transaction's status for a transfer to
/// `recipient` in `mint`: the credited amount and the payer, or the reason.
pub open spec fn transfer_outcome(meta: Option<TransactionMeta>, recipient: Address, mint: Address) -> Result<
    (u64, Seq<u8>),
    Seq<char>,
> {
    match meta {
        None => Err("transaction has no metadata"@),
        Some(m) => if m.failed {
            Err("transaction failed on-chain"@)
        } else if m.pre_token_balances is None {
            Err("no pre_token_balances"@)
        } else if m.post_token_balances is None {
            Err("no post_token_balances"@)
        } else {
            balances_outcome(m.pre_token_balances->0@, m.post_token_balances->0@, recipient, mint)
        }
    }
}

/// The outcome of scanning the token balances for a transfer.
pub open spec fn balances_outcome(pre: Seq<TokenBalance>, post: Seq<TokenBalance>, recipient: Address, mint: Address) -> Result<
    (u64, Seq<u8>),
    Seq<char>,
> {
    match credited_amount(post, pre, recipient, mint) {
        None => Err("no matching transfer found in transaction"@),
        Some(amount) => Ok(
            (
                amount,
                match find_sender_spec(pre, post, mint) {
                    Some(p) => p,
                    None => zero_address_bytes(),
                },
            ),
        ),
    }
}

/// Some balance after the transaction is of an account owned by `recipient`
/// in `mint`, and holds `amount` more than that account held before.
pub open spec fn credit_evidence(
    pre: Seq<TokenBalance>,
    post: Seq<TokenBalance>,
    recipient: Address,
    mint: Address,
    amount: u64,
) -> bool {
    exists|i: int|
        0 <= i < post.len() && (#[trigger] post[i]).owner is Some && names_address(post[i].owner->0@, recipient)
            && names_address(post[i].mint@, mint) && amount_or_zero(post[i].amount@) == amount_at_index(
            pre,
            post[i].account_index,
        ) + amount
}

proof fn lemma_credited_amount(post: Seq<TokenBalance>, pre: Seq<TokenBalance>, recipient: Address, mint: Address)
    ensures
        credited_amount(post, pre, recipient, mint) matches Some(a) ==> a > 0 && credit_evidence(
            pre,
            post,
            recipient,
            mint,
            a,
        ),
        (forall|i: int|
            0 <= i < post.len() ==> !((#[trigger] post[i]).owner is Some && names_address(
                post[i].owner->0@,
                recipient,
            ) && names_address(post[i].mint@, mint) && amount_or_zero(post[i].amount@) > amount_at_index(
                pre,
                post[i].account_index,
            ))) ==> credited_amount(post, pre, recipient, mint) is None,
    decreases post.len(),
{
    if post.len() > 0 {
        let rest = post.drop_first();
        lemma_credited_amount(rest, pre, recipient, mint);
        if credits_recipient(post[0], pre, recipient, mint) {
            assert(0 <= 0 < post.len() && post[0].owner is Some);
        } else if let Some(a) = credited_amount(rest, pre, recipient, mint) {
            let j = choose|j: int|
                0 <= j < rest.len() && (#[trigger] rest[j]).owner is Some && names_address(rest[j].owner->0@, recipient)
                    && names_address(rest[j].mint@, mint) && amount_or_zero(rest[j].amount@) == amount_at_index(
                    pre,
                    rest[j].account_index,
                ) + a;
            assert(post[j + 1] == rest[j]);
        }
        assert forall|i: int| 0 <= i < rest.len() implies rest[i] == post[i + 1] by {}
    }
}

/// What a verified transfer is: the transaction succeeded, and after it an
/// account owned by the expected recipient in the expected mint holds the
/// verified amount more than before (a positive amount). When no balance of
/// the recipient in that mint grew, there is no transfer.
pub proof fn law_verified_transfer(meta: Option<TransactionMeta>, recipient: Address, mint: Address)
    ensures
        transfer_outcome(meta, recipient, mint) matches Ok((amount, _)) ==> {
            &&& meta is Some && !meta->Some_0.failed
            &&& meta->Some_0.pre_token_balances is Some && meta->Some_0.post_token_balances is Some
            &&& amount > 0
            &&& credit_evidence(
                meta->Some_0.pre_token_balances->Some_0@,
                meta->Some_0.post_token_balances->Some_0@,
                recipient,
                mint,
                amount,
            )
        },
        (meta matches Some(m) && !m.failed && m.pre_token_balances is Some && m.post_token_balances is Some
            && forall|i: int|
            0 <= i < m.post_token_balances->Some_0@.len() ==> !({
                let b = #[trigger] m.post_token_balances->Some_0@[i];
                b.owner is Some && names_address(b.owner->0@, recipient) && names_address(b.mint@, mint)
                    && amount_or_zero(b.amount@) > amount_at_index(m.pre_token_balances->Some_0@, b.account_index)
            })) ==> transfer_outcome(meta, recipient, mint) == Err::<(u64, Seq<u8>), Seq<char>>(
            "no matching transfer found in transaction"@,
        ),
{
    if let Some(m) = meta {
        if let (Some(pre), Some(post)) = (m.pre_token_balances, m.post_token_balances) {
            lemma_credited_amount(post@, pre@, recipient, mint);
        }
    }
}

/// Reads an amount text, zero when it does not parse.
fn read_amount(t: &String) -> (r: Option<u64>)
    ensures
        r == parse_u64_spec(t@),
{
    let v = chars_of(t.as_str());
    let n = v.len();
    assert(v@.subrange(0, n as int) =~= t@);
    parse_u64_range(&v, 0, n)
}

/// The amount of the first balance for account `idx`, zero if none.
fn balance_amount_at(bals: &Vec<TokenBalance>, idx: u8) -> (r: u64)
    ensures
        r == amount_at_index(bals@, idx),
{
    let mut i: usize = 0;
    assert(bals@.skip(0) =~= bals@);
    while i < bals.len()
        invariant
            i <= bals@.len(),
            amount_at_index(bals@, idx) == amount_at_index(bals@.skip(i as int), idx),
        decreases bals.len() - i,
    {
        assert(bals@.skip(i as int).drop_first() =~= bals@.skip(i + 1));
        assert(bals@.skip(i as int)[0] == bals@[i as int]);
        if bals[i].account_index == idx {
            return match read_amount(&bals[i].amount) {
                Some(v) => v,
                None => 0,
            };
        }
        i = i + 1;
    }
    0
}

/// Finds the payer of a transfer: the owner of the first account of
/// `expected_mint` that lost tokens.
pub fn find_sender(pre: &Vec<TokenBalance>, post: &Vec<TokenBalance>, expected_mint: &Address) -> (r: Option<Address>)
    ensures
        match r {
            Some(a) => find_sender_spec(pre@, post@, *expected_mint) == Some(a@),
            None => find_sender_spec(pre@, post@, *expected_mint) is None,
        },
{
    let mut i: usize = 0;
    assert(pre@.skip(0) =~= pre@);
    while i < pre.len()
        invariant
            i <= pre@.len(),
            find_sender_spec(pre@, post@, *expected_mint) == find_sender_spec(pre@.skip(i as int), post@, *expected_mint),
        decreases pre.len() - i,
    {
        assert(pre@.skip(i as int).drop_first() =~= pre@.skip(i + 1));
        assert(pre@.skip(i as int)[0] == pre@[i as int]);
        let b = &pre[i];
        let mint = match parse_address(b.mint.as_str()) {
            Ok(m) => m,
            Err(_) => {
                return None;
            },
        };
        if same_address(&mint, expected_mint) {
            let pre_amount = match read_amount(&b.amount) {
                Some(v) => v,
                None => {
                    return None;
                },
            };
            let post_amount = balance_amount_at(post, b.account_index);
            if pre_amount > post_amount {
                if let Some(owner) = &b.owner {
                    return match parse_address(owner.as_str()) {
                        Ok(o) => Some(o),
                        Err(_) => None,
                    };
                }
            }
        }
        i = i + 1;
    }
    None
}

/// Whether the text names exactly the address `a`.
fn text_names(t: &String, a: &Address) -> (r: bool)
    ensures
        r == names_address(t@, *a),
{
    match parse_address(t.as_str()) {
        Ok(p) => same_address(&p, a),
        Err(_) => false,
    }
}

/// Finds and checks the token transfer to `expected_recipient` in `expected_mint`
/// recorded in a confirmed transaction's status.
pub fn verify_transfer(meta: &Option<TransactionMeta>, expected_recipient: &Address, expected_mint: &Address) -> (r:
    Result<VerifiedTransfer, PaymentError>)
    ensures
        match transfer_outcome(*meta, *expected_recipient, *expected_mint) {
            Ok((amount, payer)) => r matches Ok(v) && v.amount == amount && v.payer@ == payer && v.recipient
                == *expected_recipient && v.mint == *expected_mint,
            Err(m) => r matches Err(PaymentError::VerificationFailed(t)) && t@ == m,
        },
        // a verified transfer is a growth of the recipient's balance in the expected mint
        r matches Ok(v) ==> meta is Some && meta->Some_0.pre_token_balances is Some
            && meta->Some_0.post_token_balances is Some && credit_evidence(
            meta->Some_0.pre_token_balances->Some_0@,
            meta->Some_0.post_token_balances->Some_0@,
            *expected_recipient,
            *expected_mint,
            v.amount,
        ),
{
    proof {
        law_verified_transfer(*meta, *expected_recipient, *expected_mint);
    }
    let m = match meta {
        None => {
            return Err(PaymentError::VerificationFailed(text("transaction has no metadata")));
        },
        Some(m) => m,
    };
    if m.failed {
        return Err(PaymentError::VerificationFailed(text("transaction failed on-chain")));
    }
    let pre = match &m.pre_token_balances {
        Some(v) => v,
        None => {
            return Err(PaymentError::VerificationFailed(text("no pre_token_balances")));
        },
    };
    let post = match &m.post_token_balances {
        Some(v) => v,
        None => {
            return Err(PaymentError::VerificationFailed(text("no post_token_balances")));
        },
    };
    let mut i: usize = 0;
    assert(post@.skip(0) =~= post@);
    assert(transfer_outcome(*meta, *expected_recipient, *expected_mint) == balances_outcome(pre@, post@, *expected_recipient, *expected_mint));
    while i < post.len()
        invariant
            i <= post@.len(),
            transfer_outcome(*meta, *expected_recipient, *expected_mint) == balances_outcome(pre@, post@, *expected_recipient, *expected_mint),
            credited_amount(post@, pre@, *expected_recipient, *expected_mint) == credited_amount(
                post@.skip(i as int),
                pre@,
                *expected_recipient,
                *expected_mint,
            ),
        decreases post.len() - i,
    {
        assert(post@.skip(i as int).drop_first() =~= post@.skip(i + 1));
        assert(post@.skip(i as int)[0] == post@[i as int]);
        let b = &post[i];
        if let Some(owner) = &b.owner {
            if text_names(owner, expected_recipient) && text_names(&b.mint, expected_mint) {
                let post_amount = match read_amount(&b.amount) {
                    Some(v) => v,
                    None => 0,
                };
                let pre_amount = balance_amount_at(pre, b.account_index);
                if post_amount > pre_amount {
                    let amount = post_amount - pre_amount;
                    let payer = match find_sender(pre, post, expected_mint) {
                        Some(p) => p,
                        None => zero_address(),
                    };
                    proof {
                        law_verified_transfer(*meta, *expected_recipient, *expected_mint);
                    }
                    return Ok(
                        VerifiedTransfer {
                            amount,
                            payer,
                            recipient: *expected_recipient,
                            mint: *expected_mint,
                        },
                    );
                }
            }
        }
        i = i + 1;
    }
    Err(PaymentError::VerificationFailed(text("no matching transfer found in transaction")))
}

/// Reads a transaction signature for lookup; a malformed text is a failed verification.
pub fn parse_transfer_signature(signature: &str) -> (r: Result<Vec<u8>, PaymentError>)
    ensures
        match signature_from_base58(signature@) {
            Ok(b) => r matches Ok(v) && v@ == b,
            Err(e) => r matches Err(PaymentError::VerificationFailed(t)) && t@ == "invalid signature: "@ + e,
        },
{
    match parse_signature(signature) {
        Ok(b) => Ok(b),
        Err(e) => {
            let mut m = text("invalid signature: ");
            m.append(e.as_str());
            Err(PaymentError::VerificationFailed(m))
        },
    }
}

} // verus!
