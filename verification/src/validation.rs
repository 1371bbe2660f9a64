//! Validation of partially-signed relay transactions before the relayer signs
//! them as fee payer: fee payer slot, recipient allowlist and amount limits.
use vstd::prelude::*;
use crate::address::{
    address_text, associated_token_account, associated_token_address, base58_address_text,
    has_associated_token_address, same_address, token_program_bytes, token_program_id, zero_address, Address,
};
use crate::error::PaymentError;
use crate::text::{decimal_text, push_decimal, text};

verus! {

/// A compiled instruction: program and account operands are indexes into the
/// transaction's account keys.
#[derive(Debug, Clone, PartialEq, Eq)]
pub struct CompiledInstruction {
    pub program_id_index: u8,
    pub accounts: Vec<u8>,
    pub data: Vec<u8>,
}

/// What the validator reads of a versioned transaction.
#[derive(Debug, Clone, PartialEq, Eq)]
pub struct RelayTransaction {
    /// The statically listed account keys; the fee payer comes first.
    pub account_keys: Vec<Address>,
    pub instructions: Vec<CompiledInstruction>,
    /// Whether the message resolves accounts through address lookup tables.
    pub has_address_table_lookups: bool,
}

/// One token transfer found in a validated transaction.
#[derive(Debug, Clone, Copy, PartialEq, Eq)]
pub struct ValidatedTransfer {
    pub recipient: Address,
    pub amount: u64,
}

/// Result of validating a relay transaction.
#[derive(Debug, Clone, PartialEq, Eq)]
pub struct ValidationResult {
    pub payer: Address,
    pub transfers: Vec<ValidatedTransfer>,
}

/// Configuration for validating relay transactions.
#[derive(Debug, Clone)]
pub struct TransactionValidator {
    /// Raw wallet addresses and their associated token accounts for every allowed mint.
    allowed_destinations: Vec<Address>,
    max_transfer_amount: u64,
    token_program: Address,
}

/// Some address in `list` has the bytes `v`.
pub open spec fn bytes_listed(list: Seq<Address>, v: Seq<u8>) -> bool {
    exists|i: int| 0 <= i < list.len() && #[trigger] list[i]@ == v
}

/// `a` is one of the addresses in `list`.
pub open spec fn address_listed(list: Seq<Address>, a: Address) -> bool {
    bytes_listed(list, a@)
}

/// The destinations that a validator built from `recipients` and `mints`
/// accepts: each recipient, and each recipient's associated token account for
/// each mint.
pub open spec fn destination_allowed(recipients: Seq<Address>, mints: Seq<Address>, a: Address) -> bool {
    address_listed(recipients, a) || exists|i: int, j: int|
        0 <= i < recipients.len() && 0 <= j < mints.len() && a@ == #[trigger] associated_token_address(
            recipients[i]@,
            mints[j]@,
        )
}

/// Every recipient has an associated token account for every mint.
pub open spec fn all_have_atas(recipients: Seq<Address>, mints: Seq<Address>) -> bool {
    forall|i: int, j: int|
        0 <= i < recipients.len() && 0 <= j < mints.len() ==> #[trigger] has_associated_token_address(
            recipients[i]@,
            mints[j]@,
        )
}

/// `v` is the associated token account of one of the recipients for one of the mints.
pub open spec fn is_listed_ata(recipients: Seq<Address>, mints: Seq<Address>, v: Seq<u8>) -> bool {
    exists|i: int, j: int|
        0 <= i < recipients.len() && 0 <= j < mints.len() && v == #[trigger] associated_token_address(
            recipients[i]@,
            mints[j]@,
        )
}

/// The little-endian value of a byte sequence.
pub open spec fn le_value(bytes: Seq<u8>) -> nat
    decreases bytes.len(),
{
    if bytes.len() == 0 {
        0
    } else {
        bytes[0] as nat + 256 * le_value(bytes.drop_first())
    }
}

/// `256^n`.
pub open spec fn pow256(n: nat) -> nat
    decreases n,
{
    if n == 0 {
        1
    } else {
        256 * pow256((n - 1) as nat)
    }
}

/// The amount and destination operand of an SPL Token `Transfer` (tag 3) or
/// `TransferChecked` (tag 12) instruction.
pub open spec fn decode_transfer_spec(data: Seq<u8>, accounts: Seq<u8>) -> Option<(u64, u8)> {
    if data.len() >= 9 && data[0] == 3 && accounts.len() >= 3 {
        Some((le_value(data.subrange(1, 9)) as u64, accounts[1]))
    } else if data.len() >= 9 && data[0] == 12 && accounts.len() >= 4 {
        Some((le_value(data.subrange(1, 9)) as u64, accounts[2]))
    } else {
        None
    }
}

/// The limits that a validator enforces, as plain values.
pub struct Limits {
    pub allowlist_empty: bool,
    pub allowed: spec_fn(Address) -> bool,
    pub max_transfer_amount: u64,
    pub token_program: Seq<u8>,
}

/// What one instruction contributes: an error message, nothing, or a transfer.
pub open spec fn instruction_check(lim: Limits, keys: Seq<Address>, ix: CompiledInstruction) -> Result<
    Option<ValidatedTransfer>,
    Seq<char>,
> {
    if ix.program_id_index >= keys.len() {
        Err("invalid program_id_index"@)
    } else if keys[ix.program_id_index as int]@ != lim.token_program {
        Ok(None)
    } else {
        match decode_transfer_spec(ix.data@, ix.accounts@) {
            None => Ok(None),
            Some((amount, dest)) => if dest >= keys.len() {
                Err("invalid destination account index"@)
            } else {
                let d = keys[dest as int];
                if !lim.allowlist_empty && !(lim.allowed)(d) {
                    Err("recipient "@ + base58_address_text(d@) + " not in allowlist"@)
                } else if lim.max_transfer_amount > 0 && amount > lim.max_transfer_amount {
                    Err("transfer amount "@ + decimal_text(amount as nat) + " exceeds max_transfer_amount "@
                        + decimal_text(lim.max_transfer_amount as nat))
                } else {
                    Ok(Some(ValidatedTransfer { recipient: d, amount }))
                }
            },
        }
    }
}

/// The transfers found in `ixs`, in order, or the message of the first
/// instruction that is rejected.
pub open spec fn scan_instructions(lim: Limits, keys: Seq<Address>, ixs: Seq<CompiledInstruction>) -> Result<
    Seq<ValidatedTransfer>,
    Seq<char>,
>
    decreases ixs.len(),
{
    if ixs.len() == 0 {
        Ok(Seq::empty())
    } else {
        match scan_instructions(lim, keys, ixs.drop_last()) {
            Err(e) => Err(e),
            Ok(ts) => match instruction_check(lim, keys, ixs.last()) {
                Err(e) => Err(e),
                Ok(None) => Ok(ts),
                Ok(Some(t)) => Ok(ts.push(t)),
            },
        }
    }
}

/// The outcome of validating `tx` for `fee_payer`: the payer (the second
/// account) and the transfers, or the rejection message.
pub open spec fn validation_outcome(lim: Limits, tx: RelayTransaction, fee_payer: Address) -> Result<
    (Address, Seq<ValidatedTransfer>),
    Seq<char>,
> {
    let keys = tx.account_keys@;
    if tx.has_address_table_lookups {
        Err("transactions with address lookup tables are not supported"@)
    } else if keys.len() == 0 {
        Err("transaction has no accounts"@)
    } else if keys[0]@ != fee_payer@ {
        Err("fee payer mismatch: expected "@ + base58_address_text(fee_payer@) + ", got "@
            + base58_address_text(keys[0]@))
    } else if keys.len() < 2 {
        Err("transaction has no token authority"@)
    } else {
        match scan_instructions(lim, keys, tx.instructions@) {
            Err(e) => Err(e),
            Ok(ts) => if ts.len() == 0 {
                Err("no SPL token transfer instruction found"@)
            } else {
                Ok((keys[1], ts))
            },
        }
    }
}

/// Little-endian value of `data[1..9]`.
fn read_le_u64(data: &Vec<u8>) -> (r: u64)
    requires
        data@.len() >= 9,
    ensures
        r as nat == le_value(data@.subrange(1, 9)),
{
    let mut v: u64 = 0;
    let mut i: usize = 9;
    while i > 1
        invariant
            1 <= i <= 9,
            data@.len() >= 9,
            v as nat == le_value(data@.subrange(i as int, 9)),
            (v as nat) < pow256((9 - i) as nat),
        decreases i,
    {
        let b = data[i - 1];
        let ghost tail = data@.subrange(i as int, 9);
        assert(data@.subrange(i - 1, 9).drop_first() =~= tail);
        assert(pow256((9 - i + 1) as nat) == 256 * pow256((9 - i) as nat));
        proof {
            assert(pow256(8) == 0x1_0000_0000_0000_0000) by {
                reveal_with_fuel(pow256, 9);
            }
            lemma_pow256_monotone((9 - i) as nat, 7);
        }
        assert((v as nat) * 256 + (b as nat) < 256 * pow256((9 - i) as nat)) by (nonlinear_arith)
            requires
                (v as nat) < pow256((9 - i) as nat),
                (b as nat) < 256,
        ;
        v = b as u64 + 256 * v;
        i = i - 1;
    }
    v
}

proof fn lemma_pow256_monotone(a: nat, b: nat)
    requires
        a <= b,
    ensures
        pow256(a) <= pow256(b),
        pow256(a) >= 1,
    decreases b,
{
    if a < b {
        lemma_pow256_monotone(a, (b - 1) as nat);
    } else if a > 0 {
        lemma_pow256_monotone((a - 1) as nat, (a - 1) as nat);
    }
}

/// Decodes an SPL Token transfer instruction: its amount and the index of
/// its destination account operand.
pub fn decode_spl_transfer(data: &Vec<u8>, accounts: &Vec<u8>) -> (r: Option<(u64, u8)>)
    ensures
        r == decode_transfer_spec(data@, accounts@),
{
    if data.len() == 0 {
        return None;
    }
    if data[0] == 3 && data.len() >= 9 && accounts.len() >= 3 {
        let amount = read_le_u64(data);
        Some((amount, accounts[1]))
    } else if data[0] == 12 && data.len() >= 9 && accounts.len() >= 4 {
        let amount = read_le_u64(data);
        Some((amount, accounts[2]))
    } else {
        None
    }
}

impl TransactionValidator {
    /// Whether the validator accepts `a` as a transfer destination.
    pub closed spec fn allows(&self, a: Address) -> bool {
        address_listed(self.allowed_destinations@, a)
    }

    /// Whether the allowlist is empty (then every destination is accepted).
    pub closed spec fn allowlist_empty(&self) -> bool {
        self.allowed_destinations@.len() == 0
    }

    /// [`Self::new`] on every input: `None` exactly where some recipient has no
    /// associated token account for some mint (where the derivation panics).
    pub fn try_new(allowed_recipients: Vec<Address>, allowed_mints: Vec<Address>, max_transfer_amount: u64) -> (r:
        Option<TransactionValidator>)
        ensures
            (r is Some) == all_have_atas(allowed_recipients@, allowed_mints@),
            r matches Some(v) ==> {
                &&& forall|a: Address| v.allows(a) == destination_allowed(allowed_recipients@, allowed_mints@, a)
                &&& v.allowlist_empty() == (allowed_recipients@.len() == 0)
                &&& v.max_amount() == max_transfer_amount
                &&& v.token_program() == token_program_bytes()
            },
    {
        let ghost recips = allowed_recipients@;
        let ghost mints = allowed_mints@;
        let mut ri: usize = 0;
        while ri < allowed_recipients.len()
            invariant
                recips == allowed_recipients@,
                mints == allowed_mints@,
                ri <= recips.len(),
                forall|i: int, j: int|
                    0 <= i < ri && 0 <= j < mints.len() ==> #[trigger] has_associated_token_address(
                        recips[i]@,
                        mints[j]@,
                    ),
            decreases recips.len() - ri,
        {
            let mut mi: usize = 0;
            while mi < allowed_mints.len()
                invariant
                    recips == allowed_recipients@,
                    mints == allowed_mints@,
                    ri < recips.len(),
                    mi <= mints.len(),
                    forall|i: int, j: int|
                        0 <= i < ri && 0 <= j < mints.len() ==> #[trigger] has_associated_token_address(
                            recips[i]@,
                            mints[j]@,
                        ),
                    forall|j: int|
                        0 <= j < mi ==> #[trigger] has_associated_token_address(recips[ri as int]@, mints[j]@),
                decreases mints.len() - mi,
            {
                if associated_token_account(&allowed_recipients[ri], &allowed_mints[mi]).is_none() {
                    return None;
                }
                mi = mi + 1;
            }
            ri = ri + 1;
        }
        Some(Self::new(allowed_recipients, allowed_mints, max_transfer_amount))
    }

    /// The per-transfer cap in raw units (zero means no cap).
    pub closed spec fn max_amount(&self) -> u64 {
        self.max_transfer_amount
    }

    /// The address of the token program whose transfers are checked.
    pub closed spec fn token_program(&self) -> Seq<u8> {
        self.token_program@
    }

    /// The limits this validator enforces.
    pub open spec fn limits(&self) -> Limits {
        Limits {
            allowlist_empty: self.allowlist_empty(),
            allowed: |a: Address| self.allows(a),
            max_transfer_amount: self.max_amount(),
            token_program: self.token_program(),
        }
    }

    /// A validator accepting the recipients, their associated token accounts
    /// for the mints, and transfers up to `max_transfer_amount` (0: no cap).
    /// Every recipient has an associated token account for every mint (the
    /// derivation panics where it finds none; see [`Self::try_new`]).
    pub fn new(allowed_recipients: Vec<Address>, allowed_mints: Vec<Address>, max_transfer_amount: u64) -> (r:
        TransactionValidator)
        requires
            all_have_atas(allowed_recipients@, allowed_mints@),
        ensures
            forall|a: Address| r.allows(a) == destination_allowed(allowed_recipients@, allowed_mints@, a),
            r.allowlist_empty() == (allowed_recipients@.len() == 0),
            r.max_amount() == max_transfer_amount,
            r.token_program() == token_program_bytes(),
    {
        let mut dest: Vec<Address> = Vec::new();
        let mut i: usize = 0;
        while i < allowed_recipients.len()
            invariant
                i <= allowed_recipients@.len(),
                dest@ == allowed_recipients@.take(i as int),
            decreases allowed_recipients.len() - i,
        {
            dest.push(allowed_recipients[i]);
            i = i + 1;
            assert(dest@ =~= allowed_recipients@.take(i as int));
        }
        assert(dest@ =~= allowed_recipients@);
        let ghost recips = allowed_recipients@;
        let ghost mints = allowed_mints@;
        let mut ri: usize = 0;
        while ri < allowed_recipients.len()
            invariant
                recips == allowed_recipients@,
                mints == allowed_mints@,
                all_have_atas(recips, mints),
                ri <= recips.len(),
                dest@.len() >= recips.len(),
                dest@.take(recips.len() as int) == recips,
                forall|k: int|
                    recips.len() <= k < dest@.len() ==> is_listed_ata(recips, mints, #[trigger] dest@[k]@),
                recips.len() == 0 ==> dest@.len() == 0,
                forall|i: int, j: int|
                    0 <= i < ri && 0 <= j < mints.len() ==> bytes_listed(
                        dest@,
                        #[trigger] associated_token_address(recips[i]@, mints[j]@),
                    ),
            decreases recips.len() - ri,
        {
            let mut mi: usize = 0;
            while mi < allowed_mints.len()
                invariant
                    recips == allowed_recipients@,
                    mints == allowed_mints@,
                    all_have_atas(recips, mints),
                    ri < recips.len(),
                    mi <= mints.len(),
                    dest@.len() >= recips.len(),
                    dest@.take(recips.len() as int) == recips,
                    forall|k: int|
                        recips.len() <= k < dest@.len() ==> is_listed_ata(recips, mints, #[trigger] dest@[k]@),
                    forall|i: int, j: int|
                        0 <= i < ri && 0 <= j < mints.len() ==> bytes_listed(
                            dest@,
                            #[trigger] associated_token_address(recips[i]@, mints[j]@),
                        ),
                    forall|j: int|
                        0 <= j < mi ==> bytes_listed(
                            dest@,
                            #[trigger] associated_token_address(recips[ri as int]@, mints[j]@),
                        ),
                decreases mints.len() - mi,
            {
                let ata = match associated_token_account(&allowed_recipients[ri], &allowed_mints[mi]) {
                    Some(a) => a,
                    None => {
                        proof {
                            assert(has_associated_token_address(recips[ri as int]@, mints[mi as int]@));
                        }
                        zero_address()
                    },
                };
                let ghost old_dest = dest@;
                dest.push(ata);
                proof {
                    assert(dest@.take(recips.len() as int) =~= old_dest.take(recips.len() as int));
                    assert(dest@[dest@.len() - 1] == ata);
                    assert forall|k: int| recips.len() <= k < dest@.len() implies is_listed_ata(
                        recips,
                        mints,
                        #[trigger] dest@[k]@,
                    ) by {
                        if k < old_dest.len() {
                            assert(dest@[k] == old_dest[k]);
                        } else {
                            assert(dest@[k]@ == associated_token_address(recips[ri as int]@, mints[mi as int]@));
                        }
                    }
                    assert forall|i: int, j: int| 0 <= i < ri && 0 <= j < mints.len() implies bytes_listed(
                        dest@,
                        #[trigger] associated_token_address(recips[i]@, mints[j]@),
                    ) by {
                        let a = associated_token_address(recips[i]@, mints[j]@);
                        assert(bytes_listed(old_dest, a));
                        let k = choose|k: int| 0 <= k < old_dest.len() && #[trigger] old_dest[k]@ == a;
                        assert(dest@[k] == old_dest[k]);
                    }
                    assert forall|j: int| 0 <= j < mi + 1 implies bytes_listed(
                        dest@,
                        #[trigger] associated_token_address(recips[ri as int]@, mints[j]@),
                    ) by {
                        let a = associated_token_address(recips[ri as int]@, mints[j]@);
                        if j < mi {
                            assert(bytes_listed(old_dest, a));
                            let k = choose|k: int| 0 <= k < old_dest.len() && #[trigger] old_dest[k]@ == a;
                            assert(dest@[k] == old_dest[k]);
                        } else {
                            assert(dest@[dest@.len() - 1]@ == a);
                        }
                    }
                }
                mi = mi + 1;
            }
            ri = ri + 1;
        }
        let token_program = token_program_id();
        let r = TransactionValidator { allowed_destinations: dest, max_transfer_amount, token_program };
        proof {
            assert forall|a: Address| r.allows(a) == destination_allowed(recips, mints, a) by {
                if r.allows(a) {
                    let k = choose|k: int| 0 <= k < dest@.len() && #[trigger] dest@[k]@ == a@;
                    if k < recips.len() {
                        assert(dest@.take(recips.len() as int)[k] == dest@[k]);
                        assert(recips[k]@ == a@);
                    } else {
                        assert(is_listed_ata(recips, mints, dest@[k]@));
                    }
                }
                if address_listed(recips, a) {
                    let k = choose|k: int| 0 <= k < recips.len() && #[trigger] recips[k]@ == a@;
                    assert(dest@.take(recips.len() as int)[k] == dest@[k]);
                }
                if exists|i: int, j: int|
                    0 <= i < recips.len() && 0 <= j < mints.len() && a@ == #[trigger] associated_token_address(
                        recips[i]@,
                        mints[j]@,
                    ) {
                    let (i, j) = choose|i: int, j: int|
                        0 <= i < recips.len() && 0 <= j < mints.len() && a@ == #[trigger] associated_token_address(
                            recips[i]@,
                            mints[j]@,
                        );
                    let b = associated_token_address(recips[i]@, mints[j]@);
                    assert(bytes_listed(dest@, b));
                    let k = choose|k: int| 0 <= k < dest@.len() && #[trigger] dest@[k]@ == b;
                    assert(dest@[k]@ == a@);
                }
            }
            if recips.len() > 0 {
                assert(dest@.take(recips.len() as int)[0] == dest@[0]);
            }
        }
        r
    }

    /// The per-transfer cap in raw units (zero means no cap).
    pub fn max_transfer_amount(&self) -> (r: u64)
        ensures
            r == self.max_amount(),
    {
        self.max_transfer_amount
    }

    fn is_allowed(&self, a: &Address) -> (r: bool)
        ensures
            r == self.allows(*a),
    {
        let mut i: usize = 0;
        while i < self.allowed_destinations.len()
            invariant
                i <= self.allowed_destinations@.len(),
                forall|k: int| 0 <= k < i ==> self.allowed_destinations@[k]@ != a@,
            decreases self.allowed_destinations.len() - i,
        {
            if same_address(&self.allowed_destinations[i], a) {
                return true;
            }
            i = i + 1;
        }
        false
    }

    /// Validates a partially-signed transaction before the relayer signs as
    /// fee payer: no lookup tables, the expected fee payer first, a token
    /// authority second, and every SPL token transfer to an allowed
    /// destination within the amount cap; at least one such transfer.
    pub fn validate(&self, tx: &RelayTransaction, expected_fee_payer: &Address) -> (r: Result<
        ValidationResult,
        PaymentError,
    >)
        ensures
            match validation_outcome(self.limits(), *tx, *expected_fee_payer) {
                Ok((payer, ts)) => r matches Ok(v) && v.payer == payer && v.transfers@ == ts,
                Err(m) => r matches Err(PaymentError::RelayError(t)) && t@ == m,
            },
    {
        let ghost lim = self.limits();
        if tx.has_address_table_lookups {
            return Err(PaymentError::RelayError(text("transactions with address lookup tables are not supported")));
        }
        let keys = &tx.account_keys;
        if keys.len() == 0 {
            return Err(PaymentError::RelayError(text("transaction has no accounts")));
        }
        if !same_address(&keys[0], expected_fee_payer) {
            let mut m = text("fee payer mismatch: expected ");
            let e = address_text(expected_fee_payer);
            m.append(e.as_str());
            m.append(", got ");
            let g = address_text(&keys[0]);
            m.append(g.as_str());
            return Err(PaymentError::RelayError(m));
        }
        if keys.len() < 2 {
            return Err(PaymentError::RelayError(text("transaction has no token authority")));
        }
        let payer = keys[1];
        let mut transfers: Vec<ValidatedTransfer> = Vec::new();
        let mut i: usize = 0;
        let ixs = &tx.instructions;
        while i < ixs.len()
            invariant
                lim == self.limits(),
                keys@ == tx.account_keys@,
                !tx.has_address_table_lookups,
                keys@.len() >= 2,
                keys@[0]@ == expected_fee_payer@,
                payer == keys@[1],
                ixs@ == tx.instructions@,
                i <= ixs@.len(),
                scan_instructions(lim, keys@, ixs@.take(i as int)) == Ok::<Seq<ValidatedTransfer>, Seq<char>>(
                    transfers@,
                ),
            decreases ixs.len() - i,
        {
            let ix = &ixs[i];
            assert(ixs@.take(i + 1).drop_last() =~= ixs@.take(i as int));
            assert(ixs@.take(i + 1).last() == ixs@[i as int]);
            if ix.program_id_index as usize >= keys.len() {
                proof {
                    lemma_scan_error_persists(lim, keys@, ixs@, i as int + 1);
                }
                return Err(PaymentError::RelayError(text("invalid program_id_index")));
            }
            let program = &keys[ix.program_id_index as usize];
            let token_program = &self.token_program;
            if same_address(program, token_program) {
                match decode_spl_transfer(&ix.data, &ix.accounts) {
                    Some((amount, dest_index)) => {
                        if dest_index as usize >= keys.len() {
                            proof {
                                lemma_scan_error_persists(lim, keys@, ixs@, i as int + 1);
                            }
                            return Err(PaymentError::RelayError(text("invalid destination account index")));
                        }
                        let dest = keys[dest_index as usize];
                        if self.allowed_destinations.len() > 0 && !self.is_allowed(&dest) {
                            proof {
                                lemma_scan_error_persists(lim, keys@, ixs@, i as int + 1);
                            }
                            let mut m = text("recipient ");
                            let d = address_text(&dest);
                            m.append(d.as_str());
                            m.append(" not in allowlist");
                            return Err(PaymentError::RelayError(m));
                        }
                        if self.max_transfer_amount > 0 && amount > self.max_transfer_amount {
                            proof {
                                lemma_scan_error_persists(lim, keys@, ixs@, i as int + 1);
                            }
                            let mut m = text("transfer amount ");
                            push_decimal(&mut m, amount);
                            m.append(" exceeds max_transfer_amount ");
                            push_decimal(&mut m, self.max_transfer_amount);
                            return Err(PaymentError::RelayError(m));
                        }
                        transfers.push(ValidatedTransfer { recipient: dest, amount });
                    },
                    None => {},
                }
            }
            i = i + 1;
        }
        assert(ixs@.take(ixs@.len() as int) =~= ixs@);
        if transfers.len() == 0 {
            return Err(PaymentError::RelayError(text("no SPL token transfer instruction found")));
        }
        Ok(ValidationResult { payer, transfers })
    }
}

/// Once a prefix of the instructions is rejected, the whole sequence is
/// rejected with the same message.
proof fn lemma_scan_error_persists(lim: Limits, keys: Seq<Address>, ixs: Seq<CompiledInstruction>, k: int)
    requires
        0 <= k <= ixs.len(),
        scan_instructions(lim, keys, ixs.take(k)) is Err,
    ensures
        scan_instructions(lim, keys, ixs) == scan_instructions(lim, keys, ixs.take(k)),
    decreases ixs.len() - k,
{
    if k < ixs.len() {
        assert(ixs.take(k + 1).drop_last() =~= ixs.take(k));
        lemma_scan_error_persists(lim, keys, ixs, k + 1);
    } else {
        assert(ixs.take(k) =~= ixs);
    }
}

/// Every transfer that the scan accepts goes to an accepted destination and
/// stays within the cap.
pub proof fn lemma_scanned_transfers_within_limits(lim: Limits, keys: Seq<Address>, ixs: Seq<CompiledInstruction>)
    ensures
        scan_instructions(lim, keys, ixs) matches Ok(ts) ==> forall|k: int|
            0 <= k < ts.len() ==> (lim.allowlist_empty || (lim.allowed)(#[trigger] ts[k].recipient)) && (
            lim.max_transfer_amount == 0 || ts[k].amount <= lim.max_transfer_amount),
    decreases ixs.len(),
{
    if ixs.len() > 0 {
        lemma_scanned_transfers_within_limits(lim, keys, ixs.drop_last());
    }
}

/// A validated transaction has the expected fee payer first, names its
/// second account as payer, and every transfer in it goes to an allowed
/// destination and stays within the per-transfer cap.
pub proof fn law_validated_transfers_within_limits(v: TransactionValidator, tx: RelayTransaction, fee_payer: Address)
    ensures
        validation_outcome(v.limits(), tx, fee_payer) matches Ok((payer, ts)) ==> {
            &&& !tx.has_address_table_lookups
            &&& tx.account_keys@.len() >= 2
            &&& tx.account_keys@[0]@ == fee_payer@
            &&& payer == tx.account_keys@[1]
            &&& ts.len() > 0
            &&& forall|k: int|
                0 <= k < ts.len() ==> (v.allowlist_empty() || v.allows(#[trigger] ts[k].recipient)) && (
                v.max_amount() == 0 || ts[k].amount <= v.max_amount())
        },
{
    let lim = v.limits();
    lemma_scanned_transfers_within_limits(lim, tx.account_keys@, tx.instructions@);
    if let Ok((payer, ts)) = validation_outcome(lim, tx, fee_payer) {
        assert(scan_instructions(lim, tx.account_keys@, tx.instructions@) == Ok::<Seq<ValidatedTransfer>, Seq<char>>(ts));
        assert forall|k: int| 0 <= k < ts.len() implies (v.allowlist_empty() || v.allows(#[trigger] ts[k].recipient))
            && (v.max_amount() == 0 || ts[k].amount <= v.max_amount()) by {
            assert((lim.allowed)(ts[k].recipient) == v.allows(ts[k].recipient));
        }
    }
}

/// A single rejected instruction (a malformed operand, or a token transfer
/// to a destination outside the allowlist or above the cap) rejects the
/// whole transaction, wherever it stands among the instructions.
pub proof fn law_one_rejected_instruction_rejects_all(
    v: TransactionValidator,
    tx: RelayTransaction,
    fee_payer: Address,
    k: int,
)
    requires
        0 <= k < tx.instructions@.len(),
        instruction_check(v.limits(), tx.account_keys@, tx.instructions@[k]) is Err,
    ensures
        validation_outcome(v.limits(), tx, fee_payer) is Err,
{
    let lim = v.limits();
    let keys = tx.account_keys@;
    let ixs = tx.instructions@;
    assert(ixs.take(k + 1).drop_last() =~= ixs.take(k));
    assert(ixs.take(k + 1).last() == ixs[k]);
    assert(scan_instructions(lim, keys, ixs.take(k + 1)) is Err);
    lemma_scan_error_persists(lim, keys, ixs, k + 1);
}

} // verus!
