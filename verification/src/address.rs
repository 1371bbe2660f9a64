//! Account addresses (32-byte public keys) and signatures, and the outside
//! computations on them: base58 text, associated token accounts and the
//! SPL Token program's address.
use vstd::prelude::*;

verus! {

/// A Solana account address: the 32 bytes of an Ed25519 public key.
pub type Address = [u8; 32];

/// The base58 text of an address, as `Pubkey`'s `Display` writes it.
pub uninterp spec fn base58_address_text(bytes: Seq<u8>) -> Seq<char>;

/// What `Pubkey::from_str` gives for a text: the address bytes, or the text of
/// its parse error.
pub uninterp spec fn address_from_base58(text: Seq<char>) -> Result<Seq<u8>, Seq<char>>;

/// What `Pubkey::try_find_program_address` finds for the seeds `wallet`, the
/// SPL Token program and `mint` under the associated token account program:
/// the associated token account of `wallet` for `mint`, or nothing when no
/// bump seed yields an address off the curve.
pub uninterp spec fn find_associated_token_address(wallet: Seq<u8>, mint: Seq<u8>) -> Option<Seq<u8>>;

/// `wallet` has an associated token account for `mint`.
pub open spec fn has_associated_token_address(wallet: Seq<u8>, mint: Seq<u8>) -> bool {
    find_associated_token_address(wallet, mint) is Some
}

/// The associated token account of `wallet` for `mint` under the SPL Token
/// program, where there is one.
pub open spec fn associated_token_address(wallet: Seq<u8>, mint: Seq<u8>) -> Seq<u8> {
    match find_associated_token_address(wallet, mint) {
        Some(a) => a,
        None => Seq::empty(),
    }
}

/// The address of the associated token account program
/// (`ATokenGPvbdGVxr1b2hvZbsiqW5xWH25efTNsLJA8knL`).
pub open spec fn ata_program_bytes() -> Seq<u8> {
    seq![
        140u8, 151, 37, 143, 78, 36, 137, 241, 187, 61, 16, 41, 20, 142, 13, 131, 11, 90, 19, 153,
        218, 255, 16, 132, 4, 142, 123, 216, 219, 233, 248, 89,
    ]
}

/// What `Signature::from_str` gives for a text: the 64 signature bytes, or the
/// text of its parse error.
pub uninterp spec fn signature_from_base58(text: Seq<char>) -> Result<Seq<u8>, Seq<char>>;

/// The bytes of the SPL Token program's address
/// (`TokenkegQfeZyiNwAJbNbGKPFXCWuBvf9Ss623VQ5DA`).
pub open spec fn token_program_bytes() -> Seq<u8> {
    seq![
        6u8, 221, 246, 225, 215, 101, 161, 147, 217, 203, 225, 70, 206, 235, 121, 172, 28, 180, 133,
        237, 95, 91, 55, 145, 58, 140, 245, 133, 126, 255, 0, 169,
    ]
}

/// The all-zero address (`Pubkey::default()`).
pub open spec fn zero_address_bytes() -> Seq<u8> {
    Seq::new(32, |i: int| 0u8)
}

/// Whether two addresses are the same.
pub fn same_address(a: &Address, b: &Address) -> (r: bool)
    ensures
        r == (a@ == b@),
{
    let mut i: usize = 0;
    while i < 32
        invariant
            i <= 32,
            a@.len() == 32,
            b@.len() == 32,
            forall|k: int| 0 <= k < i ==> a@[k] == b@[k],
        decreases 32 - i,
    {
        if a[i] != b[i] {
            return false;
        }
        i = i + 1;
    }
    assert(a@ =~= b@);
    true
}

/// The all-zero address.
pub fn zero_address() -> (r: Address)
    ensures
        r@ == zero_address_bytes(),
{
    let r: Address = [0u8; 32];
    assert(r@ =~= zero_address_bytes());
    r
}

/// Base58 text of an address.
///
/// Trusted: `Pubkey`'s `Display` is a function of the 32 bytes alone; the
/// result is named, not spelled out.
#[verifier::external_body]
pub(crate) fn address_text(a: &Address) -> (r: String)
    ensures
        r@ == base58_address_text(a@),
{
    solana_pubkey::Pubkey::new_from_array(*a).to_string()
}

/// Parses the base58 text of an address.
///
/// Trusted: `Pubkey::from_str` decodes the text into 32 bytes or reports one
/// of its parse errors; both outcomes depend on the text alone and are named.
#[verifier::external_body]
pub(crate) fn parse_address(text: &str) -> (r: Result<Address, String>)
    ensures
        match r {
            Ok(a) => address_from_base58(text@) == Ok::<Seq<u8>, Seq<char>>(a@),
            Err(m) => address_from_base58(text@) == Err::<Seq<u8>, Seq<char>>(m@),
        },
{
    match text.parse::<solana_pubkey::Pubkey>() {
        Ok(p) => Ok(p.to_bytes()),
        Err(e) => Err(e.to_string()),
    }
}

/// Parses the base58 text of a transaction signature.
///
/// Trusted: `Signature::from_str` decodes the text into 64 bytes or reports one
/// of its parse errors; both outcomes depend on the text alone and are named.
#[verifier::external_body]
pub(crate) fn parse_signature(text: &str) -> (r: Result<Vec<u8>, String>)
    ensures
        match r {
            Ok(b) => signature_from_base58(text@) == Ok::<Seq<u8>, Seq<char>>(b@) && b@.len() == 64,
            Err(m) => signature_from_base58(text@) == Err::<Seq<u8>, Seq<char>>(m@),
        },
{
    match text.parse::<solana_signature::Signature>() {
        Ok(s) => Ok(s.as_ref().to_vec()),
        Err(e) => Err(e.to_string()),
    }
}

/// Finds the program address of the seeds `wallet`, `token_program`, `mint`
/// under `ata_program`.
///
/// Trusted: `Pubkey::try_find_program_address` tries the bump seeds from 255
/// down and returns the first address off the curve, or `None` when none is;
/// with the SPL Token and associated token account programs, as `requires`
/// asks, this is the derivation of `get_associated_token_address`, and its
/// outcome depends on `wallet` and `mint` alone and is named.
#[verifier::external_body]
fn find_program_account(wallet: &Address, mint: &Address, token_program: &Address, ata_program: &Address) -> (r:
    Option<Address>)
    requires
        token_program@ == token_program_bytes(),
        ata_program@ == ata_program_bytes(),
    ensures
        find_associated_token_address(wallet@, mint@) == match r {
            Some(a) => Some(a@),
            None => None::<Seq<u8>>,
        },
{
    let seeds: [&[u8]; 3] = [&wallet[..], &token_program[..], &mint[..]];
    let program = solana_pubkey::Pubkey::new_from_array(*ata_program);
    solana_pubkey::Pubkey::try_find_program_address(&seeds, &program).map(|(a, _)| a.to_bytes())
}

/// The address of the associated token account program.
///
/// Trusted: `spl_associated_token_account::id()` returns the program's fixed
/// address, whose bytes are the base58 decoding of
/// `ATokenGPvbdGVxr1b2hvZbsiqW5xWH25efTNsLJA8knL`.
#[verifier::external_body]
pub(crate) fn ata_program_id() -> (r: Address)
    ensures
        r@ == ata_program_bytes(),
{
    spl_associated_token_account::id().to_bytes()
}

/// The associated token account of `wallet` for `mint`, or `None` where the
/// derivation finds no address (where `get_associated_token_address` panics).
pub(crate) fn associated_token_account(wallet: &Address, mint: &Address) -> (r: Option<Address>)
    ensures
        (r is Some) == has_associated_token_address(wallet@, mint@),
        r matches Some(a) ==> a@ == associated_token_address(wallet@, mint@),
{
    let token_program = token_program_id();
    let ata_program = ata_program_id();
    find_program_account(wallet, mint, &token_program, &ata_program)
}

/// The address of the SPL Token program.
///
/// Trusted: `spl_token::id()` returns the program's fixed address, whose bytes
/// are the base58 decoding of `TokenkegQfeZyiNwAJbNbGKPFXCWuBvf9Ss623VQ5DA`.
#[verifier::external_body]
pub(crate) fn token_program_id() -> (r: Address)
    ensures
        r@ == token_program_bytes(),
{
    spl_token::id().to_bytes()
}

/// The address of the Token-2022 program
/// (`TokenzQdBNbLqP5VEhdkAS6EPFLC1PHnBqCXEpPxuEb`).
pub open spec fn token_2022_program_bytes() -> Seq<u8> {
    seq![
        6u8, 221, 246, 225, 238, 117, 143, 222, 24, 66, 93, 188, 228, 108, 205, 218, 182, 26, 252, 77,
        131, 185, 13, 39, 254, 189, 249, 40, 216, 161, 139, 252,
    ]
}

/// The startup check on the configured mint, given the program that owns its
/// account: a Token-2022 mint is refused, since the relayer and the
/// transaction validator handle classic SPL Token mints only.
pub fn check_classic_mint(mint: &Address, owner: &Address) -> (r: Result<(), String>)
    ensures
        owner@ == token_2022_program_bytes() ==> (r matches Err(m) && m@ == "mint "@ + base58_address_text(mint@)
            + " is a Token-2022 mint, which is not yet supported. The relayer and transaction validator only handle classic SPL Token mints."@),
        owner@ != token_2022_program_bytes() ==> r is Ok,
{
    let token_2022: Address = [
        6u8, 221, 246, 225, 238, 117, 143, 222, 24, 66, 93, 188, 228, 108, 205, 218, 182, 26, 252, 77,
        131, 185, 13, 39, 254, 189, 249, 40, 216, 161, 139, 252,
    ];
    assert(token_2022@ =~= token_2022_program_bytes());
    if same_address(owner, &token_2022) {
        let mut m = String::from_str("mint ");
        let t = address_text(mint);
        m.append(t.as_str());
        m.append(" is a Token-2022 mint, which is not yet supported. The relayer and transaction validator only handle classic SPL Token mints.");
        Err(m)
    } else {
        Ok(())
    }
}

} // verus!
