//! Token instructions as plain values: the SPL Token `TransferChecked` and
//! the idempotent creation of an associated token account, which make up the
//! transactions the relay prepares and the refunds the gateway sends.
use vstd::prelude::*;
use crate::address::{
    associated_token_account, associated_token_address, ata_program_bytes, ata_program_id, has_associated_token_address,
    token_program_bytes, token_program_id, zero_address, zero_address_bytes, Address,
};
use crate::error::PaymentError;
use crate::relay::check_prepare_amount;
use crate::text::decimal_text;
use crate::validation::{decode_transfer_spec, destination_allowed, le_value, pow256};

verus! {

/// An account operand of an instruction.
#[derive(Debug, Clone, Copy, PartialEq, Eq)]
pub struct AccountMeta {
    pub address: Address,
    pub is_signer: bool,
    pub is_writable: bool,
}

/// An instruction: the program it calls, its account operands and its data.
#[derive(Debug, Clone, PartialEq, Eq)]
pub struct Instruction {
    pub program_id: Address,
    pub accounts: Vec<AccountMeta>,
    pub data: Vec<u8>,
}

/// An account operand.
pub open spec fn meta(address: Address, is_signer: bool, is_writable: bool) -> AccountMeta {
    AccountMeta { address, is_signer, is_writable }
}

/// The `k` low bytes of `n`, least significant first.
pub open spec fn le_bytes(n: nat, k: nat) -> Seq<u8>
    decreases k,
{
    if k == 0 {
        Seq::empty()
    } else {
        seq![(n % 256) as u8] + le_bytes(n / 256, (k - 1) as nat)
    }
}

/// `ix` is the SPL Token `TransferChecked` instruction moving `amount` raw
/// units of `mint` from `source` to `destination`, signed by `authority`: tag
/// 12, the amount in 8 little-endian bytes, then the decimals.
pub open spec fn is_transfer_checked(
    ix: Instruction,
    source: Address,
    mint: Address,
    destination: Address,
    authority: Address,
    amount: u64,
    decimals: u8,
) -> bool {
    &&& ix.program_id@ == token_program_bytes()
    &&& ix.accounts@ == seq![
        meta(source, false, true),
        meta(mint, false, false),
        meta(destination, false, true),
        meta(authority, true, false),
    ]
    &&& ix.data@ == seq![12u8] + le_bytes(amount as nat, 8) + seq![decimals]
}

/// `ix` creates, if it does not exist yet, the associated token account of
/// `wallet` for `mint`, paid for by `funding`.
pub open spec fn is_create_ata_idempotent(ix: Instruction, funding: Address, wallet: Address, mint: Address) -> bool {
    &&& ix.program_id@ == ata_program_bytes()
    &&& ix.accounts@.len() == 6
    &&& ix.accounts@[0] == meta(funding, true, true)
    &&& ix.accounts@[1].address@ == associated_token_address(wallet@, mint@)
    &&& !ix.accounts@[1].is_signer && ix.accounts@[1].is_writable
    &&& ix.accounts@[2] == meta(wallet, false, false)
    &&& ix.accounts@[3] == meta(mint, false, false)
    &&& ix.accounts@[4].address@ == zero_address_bytes() && !ix.accounts@[4].is_signer && !ix.accounts@[4].is_writable
    &&& ix.accounts@[5].address@ == token_program_bytes() && !ix.accounts@[5].is_signer
        && !ix.accounts@[5].is_writable
    &&& ix.data@ == seq![1u8]
}

/// Builds a `TransferChecked` instruction of the SPL Token program.
///
/// Trusted: `spl_token::instruction::transfer_checked` with the SPL Token
/// program id and no multisig signers returns `Ok` (its only check is on the
/// program id) with the instruction that `is_transfer_checked` describes, as
/// its source shows.
#[verifier::external_body]
fn transfer_checked_instruction(
    source: &Address,
    mint: &Address,
    destination: &Address,
    authority: &Address,
    amount: u64,
    decimals: u8,
) -> (r: Result<Instruction, String>)
    ensures
        r is Ok,
        match r {
            Ok(ix) => is_transfer_checked(ix, *source, *mint, *destination, *authority, amount, decimals),
            Err(_) => false,
        },
{
    let key = spl_token::solana_program::pubkey::Pubkey::new_from_array;
    let (s, m, d, a) = (key(*source), key(*mint), key(*destination), key(*authority));
    match spl_token::instruction::transfer_checked(&spl_token::id(), &s, &m, &d, &a, &[], amount, decimals) {
        Ok(ix) => Ok(Instruction {
            program_id: ix.program_id.to_bytes(),
            accounts: ix.accounts.iter().map(|x| AccountMeta { address: x.pubkey.to_bytes(), is_signer: x.is_signer, is_writable: x.is_writable }).collect(),
            data: ix.data,
        }),
        Err(e) => Err(e.to_string()),
    }
}

/// The instruction creating, if missing, the associated token account `ata`
/// of `wallet` for `mint`, paid for by `funding`: instruction 1
/// (`CreateIdempotent`) of the associated token account program, over the
/// funding account, the new account, the wallet, the mint, the system program
/// and the SPL Token program, as
/// `create_associated_token_account_idempotent` builds it.
fn create_ata_idempotent(funding: &Address, wallet: &Address, mint: &Address, ata: &Address) -> (r: Instruction)
    requires
        ata@ == associated_token_address(wallet@, mint@),
    ensures
        is_create_ata_idempotent(r, *funding, *wallet, *mint),
{
    let mut accounts: Vec<AccountMeta> = Vec::new();
    accounts.push(AccountMeta { address: *funding, is_signer: true, is_writable: true });
    accounts.push(AccountMeta { address: *ata, is_signer: false, is_writable: true });
    accounts.push(AccountMeta { address: *wallet, is_signer: false, is_writable: false });
    accounts.push(AccountMeta { address: *mint, is_signer: false, is_writable: false });
    accounts.push(AccountMeta { address: zero_address(), is_signer: false, is_writable: false });
    accounts.push(AccountMeta { address: token_program_id(), is_signer: false, is_writable: false });
    let mut data: Vec<u8> = Vec::new();
    data.push(1u8);
    assert(data@ =~= seq![1u8]);
    Instruction { program_id: ata_program_id(), accounts, data }
}

/// The two instructions that move `amount` raw units of `mint` from the
/// associated token account of `from_wallet` to that of `to_wallet`, signed
/// by `authority`: the idempotent creation of the receiving account (paid for
/// by `funding`), then the transfer. `None` where one of the two wallets has
/// no associated token account for `mint` (the derivation finds no address).
pub fn token_transfer_instructions(
    funding: &Address,
    authority: &Address,
    from_wallet: &Address,
    to_wallet: &Address,
    mint: &Address,
    amount: u64,
    decimals: u8,
) -> (r: Option<Vec<Instruction>>)
    ensures
        (r is Some) == (has_associated_token_address(from_wallet@, mint@) && has_associated_token_address(
            to_wallet@,
            mint@,
        )),
        r matches Some(ixs) ==> {
            &&& ixs@.len() == 2
            &&& is_create_ata_idempotent(ixs@[0], *funding, *to_wallet, *mint)
            &&& ixs@[1].accounts@[0].address@ == associated_token_address(from_wallet@, mint@)
            &&& ixs@[1].accounts@[2].address@ == associated_token_address(to_wallet@, mint@)
            &&& is_transfer_checked(
                ixs@[1],
                ixs@[1].accounts@[0].address,
                *mint,
                ixs@[1].accounts@[2].address,
                *authority,
                amount,
                decimals,
            )
        },
{
    let source = match associated_token_account(from_wallet, mint) {
        Some(a) => a,
        None => {
            return None;
        },
    };
    let destination = match associated_token_account(to_wallet, mint) {
        Some(a) => a,
        None => {
            return None;
        },
    };
    let create = create_ata_idempotent(funding, to_wallet, mint, &destination);
    let transfer = match transfer_checked_instruction(&source, mint, &destination, authority, amount, decimals) {
        Ok(ix) => ix,
        Err(_) => {
            proof {
                assert(false);
            }
            create.clone()
        },
    };
    let mut r: Vec<Instruction> = Vec::new();
    r.push(create);
    r.push(transfer);
    Some(r)
}

/// The instructions of a transfer transaction prepared by the built-in
/// relayer: the recipient's associated token account for the first allowed
/// mint is created if missing (paid for by the fee payer), then `amount`
/// moves there from the payer's associated token account, signed by the
/// payer, with `reference` appended as a read-only operand so the client can
/// find the transaction. An amount above a positive cap is refused; past
/// that check, `None` where the payer or the recipient has no associated
/// token account for the mint (the derivation finds no address).
pub fn prepare_instructions(
    max_transfer_amount: u64,
    allowed_mints: &Vec<Address>,
    recipient: &Address,
    fee_payer: &Address,
    payer: &Address,
    amount: u64,
    decimals: u8,
    reference: &Address,
) -> (r: Option<Result<Vec<Instruction>, PaymentError>>)
    requires
        allowed_mints@.len() > 0,
    ensures
        (max_transfer_amount > 0 && amount > max_transfer_amount) ==> (r matches Some(Err(PaymentError::RelayError(m)))
            && m@ == "amount "@ + decimal_text(amount as nat) + " exceeds max "@ + decimal_text(
            max_transfer_amount as nat,
        )),
        !(max_transfer_amount > 0 && amount > max_transfer_amount) ==> ((r is None) == !(
            has_associated_token_address(payer@, allowed_mints@[0]@) && has_associated_token_address(
                recipient@,
                allowed_mints@[0]@,
            ))),
        !(max_transfer_amount > 0 && amount > max_transfer_amount) && r is Some ==> (r matches Some(Ok(ixs)) && {
            let mint = allowed_mints@[0];
            let t = ixs@[1];
            &&& ixs@.len() == 2
            &&& is_create_ata_idempotent(ixs@[0], *fee_payer, *recipient, mint)
            &&& t.program_id@ == token_program_bytes()
            &&& t.accounts@.len() == 5
            &&& t.accounts@[0].address@ == associated_token_address(payer@, mint@)
            &&& !t.accounts@[0].is_signer && t.accounts@[0].is_writable
            &&& t.accounts@[1] == meta(mint, false, false)
            &&& t.accounts@[2].address@ == associated_token_address(recipient@, mint@)
            &&& !t.accounts@[2].is_signer && t.accounts@[2].is_writable
            &&& t.accounts@[3] == meta(*payer, true, false)
            &&& t.accounts@[4] == meta(*reference, false, false)
            &&& t.data@ == seq![12u8] + le_bytes(amount as nat, 8) + seq![decimals]
        }),
{
    match check_prepare_amount(max_transfer_amount, amount) {
        Err(e) => {
            return Some(Err(e));
        },
        Ok(()) => {},
    }
    let mint = allowed_mints[0];
    let mut ixs = match token_transfer_instructions(fee_payer, payer, payer, recipient, &mint, amount, decimals) {
        Some(ixs) => ixs,
        None => {
            return None;
        },
    };
    let mut transfer = ixs.pop().unwrap();
    transfer.accounts.push(AccountMeta { address: *reference, is_signer: false, is_writable: false });
    ixs.push(transfer);
    Some(Ok(ixs))
}

/// The little-endian value of `le_bytes(n, k)` is `n` modulo `256^k`.
pub proof fn lemma_le_bytes_value(n: nat, k: nat)
    ensures
        le_bytes(n, k).len() == k,
        le_value(le_bytes(n, k)) == n % pow256(k),
        pow256(k) > 0,
    decreases k,
{
    if k > 0 {
        lemma_le_bytes_value(n / 256, (k - 1) as nat);
        let tail = le_bytes(n / 256, (k - 1) as nat);
        assert(le_bytes(n, k).drop_first() =~= tail);
        vstd::arithmetic::div_mod::lemma_mod_breakdown(n as int, 256, pow256((k - 1) as nat) as int);
        assert(pow256(k) == 256 * pow256((k - 1) as nat));
    }
}

/// A transaction prepared by the built-in relayer passes its own validation:
/// its transfer decodes to the requested amount, within the cap, sent to the
/// associated token account of the recipient for the mint, which a validator
/// built from that recipient and mint allows.
pub proof fn law_prepared_transfer_is_allowed(
    max_transfer_amount: u64,
    allowed_mints: Seq<Address>,
    recipient: Address,
    payer: Address,
    amount: u64,
    decimals: u8,
    transfer: Instruction,
)
    requires
        allowed_mints.len() > 0,
        !(max_transfer_amount > 0 && amount > max_transfer_amount),
        transfer.program_id@ == token_program_bytes(),
        transfer.accounts@.len() == 5,
        transfer.accounts@[2].address@ == associated_token_address(recipient@, allowed_mints[0]@),
        transfer.data@ == seq![12u8] + le_bytes(amount as nat, 8) + seq![decimals],
    ensures
        decode_transfer_spec(transfer.data@, seq![0u8, 1, 2, 3, 4]) == Some((amount, 2u8)),
        destination_allowed(seq![recipient], seq![allowed_mints[0]], transfer.accounts@[2].address),
        max_transfer_amount == 0 || amount <= max_transfer_amount,
{
    lemma_le_bytes_value(amount as nat, 8);
    assert(pow256(8) == 0x1_0000_0000_0000_0000) by {
        reveal_with_fuel(pow256, 9);
    }
    let d = transfer.data@;
    assert(d.subrange(1, 9) =~= le_bytes(amount as nat, 8));
    assert(associated_token_address(seq![recipient][0]@, seq![allowed_mints[0]][0]@) == transfer.accounts@[2].address@);
}

} // verus!
