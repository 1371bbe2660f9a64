//! Token amounts: raw integer units, their human-readable decimal rendering,
//! and the parser from that rendering back to raw units.
use vstd::prelude::*;
use vstd::string::*;
use vstd::utf8::*;
use crate::address::Address;
use crate::error::{parse_error_text, ParseError};
use crate::text::{lemma_decimal_text, lemma_digits_value_append, lemma_digits_value_zeros, lemma_parse_decimal_text, byte_len, chars_of, lemma_pow10_positive, decimal_text, is_digit, all_digits, digits_value, lemma_pow10_19, lemma_pow10_monotone, parse_u64_range, parse_u64_spec, pow10, push_char, push_chars, text, u64_to_text, zeros};

verus! {

/// A token amount. The raw integer is authoritative for all arithmetic; the
/// decimal text exists only at configuration and presentation boundaries.
#[derive(Debug, Clone, PartialEq, Eq)]
pub struct TokenAmount {
    pub raw: u64,
    pub mint: Address,
    pub decimals: u8,
}

/// Why a display text is not an amount (the spec-level counterpart of
/// [`ParseError`]).
#[derive(Debug, Clone, Copy, PartialEq, Eq)]
pub enum AmountRejection {
    /// The text is empty.
    Empty,
    /// The text is not a decimal number (the error carries the whole text).
    Malformed,
    /// The value does not fit in 64 bits of raw units.
    Overflow,
    /// More fractional digits than the token has decimals; the payload is the
    /// byte length of the fractional part.
    ExcessPrecision(usize),
}

/// Number of `c` characters in `s`.
pub open spec fn count_char(s: Seq<char>, c: char) -> nat
    decreases s.len(),
{
    if s.len() == 0 {
        0
    } else {
        count_char(s.drop_last(), c) + if s.last() == c {
            1nat
        } else {
            0nat
        }
    }
}

/// The position of the decimal point in a text that holds exactly one.
pub open spec fn dot_index(s: Seq<char>) -> int {
    choose|k: int| 0 <= k < s.len() && s[k] == '.'
}

/// The fractional text padded on the right with zeros to `decimals` characters.
pub open spec fn padded_fraction(frac: Seq<char>, decimals: u8) -> Seq<char> {
    if frac.len() < decimals {
        frac + zeros((decimals - frac.len()) as nat)
    } else {
        frac
    }
}

/// Whether parsing reaches the point where it scales the whole part by
/// `10^decimals` (that power overflows, and the parser panics, when
/// `decimals > 19`).
pub open spec fn amount_reaches_scale(s: Seq<char>, decimals: u8) -> bool {
    if s.len() == 0 {
        false
    } else if count_char(s, '.') == 0 {
        parse_u64_spec(s) is Some
    } else if count_char(s, '.') == 1 {
        let k = dot_index(s);
        let frac = s.subrange(k + 1, s.len() as int);
        decimals != 0 && encode_utf8(frac).len() <= decimals && parse_u64_spec(s.take(k)) is Some
            && parse_u64_spec(padded_fraction(frac, decimals)) is Some
    } else {
        false
    }
}

/// The raw value that a display text denotes for a token with `decimals`
/// decimals, or why it denotes none.
pub open spec fn amount_from_display(s: Seq<char>, decimals: u8) -> Result<u64, AmountRejection> {
    let scale = pow10(decimals as nat);
    if s.len() == 0 {
        Err(AmountRejection::Empty)
    } else if count_char(s, '.') == 0 {
        match parse_u64_spec(s) {
            None => Err(AmountRejection::Malformed),
            Some(w) => if w * scale > u64::MAX {
                Err(AmountRejection::Overflow)
            } else {
                Ok((w * scale) as u64)
            },
        }
    } else if count_char(s, '.') == 1 {
        let k = dot_index(s);
        let frac = s.subrange(k + 1, s.len() as int);
        let frac_bytes = encode_utf8(frac).len();
        if decimals == 0 || frac_bytes > decimals {
            Err(AmountRejection::ExcessPrecision(frac_bytes as usize))
        } else {
            match parse_u64_spec(s.take(k)) {
                None => Err(AmountRejection::Malformed),
                Some(w) => match parse_u64_spec(padded_fraction(frac, decimals)) {
                    None => Err(AmountRejection::Malformed),
                    Some(f) => if w * scale + f > u64::MAX {
                        Err(AmountRejection::Overflow)
                    } else {
                        Ok((w * scale + f) as u64)
                    },
                },
            }
        }
    } else {
        Err(AmountRejection::Malformed)
    }
}

/// `text` with its trailing zero characters removed.
pub open spec fn trim_trailing_zeros(text: Seq<char>) -> Seq<char>
    decreases text.len(),
{
    if text.len() > 0 && text.last() == '0' {
        trim_trailing_zeros(text.drop_last())
    } else {
        text
    }
}

/// The decimal text of `n`, padded on the left with zeros to `width` characters.
pub open spec fn zero_padded(n: nat, width: nat) -> Seq<char> {
    let t = decimal_text(n);
    if t.len() < width {
        zeros((width - t.len()) as nat) + t
    } else {
        t
    }
}

/// The human-readable rendering of `raw` units of a token with `decimals`
/// decimals: the whole part, then, if the fraction is not zero, a point and
/// the fraction's digits without trailing zeros.
pub open spec fn display_text(raw: u64, decimals: u8) -> Seq<char> {
    if decimals == 0 {
        decimal_text(raw as nat)
    } else {
        let scale = pow10(decimals as nat);
        let whole = raw as nat / scale;
        let frac = raw as nat % scale;
        if frac == 0 {
            decimal_text(whole)
        } else {
            decimal_text(whole) + seq!['.'] + trim_trailing_zeros(zero_padded(frac, decimals as nat))
        }
    }
}

/// The relation between a parse result and the rejection reason behind it.
pub open spec fn parse_result_matches(
    r: Result<TokenAmount, ParseError>,
    s: Seq<char>,
    mint: Address,
    decimals: u8,
) -> bool {
    match (r, amount_from_display(s, decimals)) {
        (Ok(t), Ok(raw)) => t.raw == raw && t.mint == mint && t.decimals == decimals,
        (Err(ParseError::InvalidFormat(m)), Err(AmountRejection::Empty)) => m@ == "empty string"@,
        (Err(ParseError::InvalidFormat(m)), Err(AmountRejection::Malformed)) => m@ == s,
        (Err(ParseError::InvalidFormat(m)), Err(AmountRejection::Overflow)) => m@ == "overflow"@,
        (
            Err(ParseError::ExcessPrecision { fractional_digits, decimals: d }),
            Err(AmountRejection::ExcessPrecision(n)),
        ) => fractional_digits == n && d == decimals,
        _ => false,
    }
}

/// The message of the parse error for a rejected amount text.
pub open spec fn rejection_text(rej: AmountRejection, s: Seq<char>, decimals: u8) -> Seq<char> {
    match rej {
        AmountRejection::Empty => "invalid amount format: "@ + "empty string"@,
        AmountRejection::Malformed => "invalid amount format: "@ + s,
        AmountRejection::Overflow => "invalid amount format: "@ + "overflow"@,
        AmountRejection::ExcessPrecision(n) => "excess precision: "@ + decimal_text(n as nat)
            + " fractional digits for "@ + decimal_text(decimals as nat) + " decimal token"@,
    }
}

/// A rejected parse reports the message of its rejection reason.
pub proof fn lemma_rejection_text(r: Result<TokenAmount, ParseError>, s: Seq<char>, mint: Address, decimals: u8)
    requires
        parse_result_matches(r, s, mint, decimals),
        r is Err,
    ensures
        amount_from_display(s, decimals) matches Err(rej) && parse_error_text(r->Err_0) == rejection_text(
            rej,
            s,
            decimals,
        ),
{
}

pub proof fn lemma_count_char_step(s: Seq<char>, c: char, i: int)
    requires
        0 <= i < s.len(),
    ensures
        count_char(s.take(i + 1), c) == count_char(s.take(i), c) + if s[i] == c {
            1nat
        } else {
            0nat
        },
{
    assert(s.take(i + 1).drop_last() =~= s.take(i));
}

pub proof fn lemma_count_char_prefix(s: Seq<char>, c: char, i: int, j: int)
    requires
        0 <= i <= j <= s.len(),
    ensures
        count_char(s.take(i), c) <= count_char(s.take(j), c),
    decreases j - i,
{
    if i < j {
        lemma_count_char_prefix(s, c, i, j - 1);
        lemma_count_char_step(s, c, j - 1);
    }
}

/// A character at position `i` is counted.
pub proof fn lemma_count_char_at(s: Seq<char>, c: char, i: int)
    requires
        0 <= i < s.len(),
        s[i] == c,
    ensures
        count_char(s.take(i + 1), c) >= 1,
        count_char(s, c) >= 1,
{
    lemma_count_char_step(s, c, i);
    lemma_count_char_prefix(s, c, i + 1, s.len() as int);
    assert(s.take(s.len() as int) =~= s);
}

/// Two distinct occurrences make a count of at least two.
pub proof fn lemma_count_char_two(s: Seq<char>, c: char, i: int, j: int)
    requires
        0 <= i < j < s.len(),
        s[i] == c,
        s[j] == c,
    ensures
        count_char(s, c) >= 2,
{
    lemma_count_char_at(s, c, i);
    lemma_count_char_prefix(s, c, i + 1, j);
    lemma_count_char_step(s, c, j);
    lemma_count_char_prefix(s, c, j + 1, s.len() as int);
    assert(s.take(s.len() as int) =~= s);
}

/// A text without the character counts none of it.
pub proof fn lemma_count_char_absent(s: Seq<char>, c: char)
    requires
        forall|k: int| 0 <= k < s.len() ==> s[k] != c,
    ensures
        count_char(s, c) == 0,
    decreases s.len(),
{
    if s.len() > 0 {
        lemma_count_char_absent(s.drop_last(), c);
    }
}

/// A text with exactly one point has it at a single position.
pub proof fn lemma_dot_index(s: Seq<char>, k: int)
    requires
        0 <= k < s.len(),
        s[k] == '.',
        count_char(s, '.') == 1,
    ensures
        dot_index(s) == k,
{
    let j = dot_index(s);
    assert(0 <= j < s.len() && s[j] == '.');
    if j < k {
        lemma_count_char_two(s, '.', j, k);
    } else if k < j {
        lemma_count_char_two(s, '.', k, j);
    }
}

/// UTF-8 never takes fewer bytes than characters.
pub proof fn lemma_encode_utf8_len(s: Seq<char>)
    ensures
        encode_utf8(s).len() >= s.len(),
    decreases s.len(),
{
    if s.len() > 0 {
        lemma_encode_utf8_len(s.drop_first());
    }
}

/// `10^decimals` as a 64-bit integer.
fn pow10_u64(decimals: u8) -> (r: u64)
    requires
        decimals <= 19,
    ensures
        r as nat == pow10(decimals as nat),
{
    let mut r: u64 = 1;
    let mut i: u8 = 0;
    while i < decimals
        invariant
            i <= decimals <= 19,
            r as nat == pow10(i as nat),
        decreases decimals - i,
    {
        proof {
            lemma_pow10_monotone((i + 1) as nat, 19);
            lemma_pow10_19();
        }
        r = r * 10;
        i = i + 1;
    }
    r
}

/// `v[from..]` padded with zeros on the right to `decimals` digits.
fn pad_fraction(v: &Vec<char>, from: usize, decimals: u8) -> (p: Vec<char>)
    requires
        from <= v@.len(),
    ensures
        p@ == padded_fraction(v@.subrange(from as int, v@.len() as int), decimals),
{
    let n = v.len();
    let ghost frac = v@.subrange(from as int, n as int);
    let mut padded: Vec<char> = Vec::new();
    let mut i = from;
    while i < n
        invariant
            from <= i <= n,
            n == v@.len(),
            padded@ == v@.subrange(from as int, i as int),
        decreases n - i,
    {
        padded.push(v[i]);
        i = i + 1;
        assert(padded@ =~= v@.subrange(from as int, i as int));
    }
    assert(padded@ =~= frac);
    if padded.len() >= decimals as usize {
        return padded;
    }
    let ghost frac_len = padded@.len();
    while padded.len() < decimals as usize
        invariant
            frac_len == frac.len(),
            frac_len < decimals,
            frac_len <= padded@.len() <= decimals,
            padded@ == frac + zeros((padded@.len() - frac_len) as nat),
        decreases decimals - padded@.len(),
    {
        padded.push('0');
        assert(padded@ =~= frac + zeros((padded@.len() - frac_len) as nat));
    }
    padded
}

/// Whether parsing `s` for a token with `decimals` decimals reaches the
/// scaling by `10^decimals` (see [`amount_reaches_scale`]); that scaling
/// overflows, and parsing panics, for more than 19 decimals.
pub fn reaches_scale(s: &str, decimals: u8) -> (r: bool)
    ensures
        r == amount_reaches_scale(s@, decimals),
{
    let v = chars_of(s);
    let n = v.len();
    if n == 0 {
        return false;
    }
    let (k, count) = scan_points(&v);
    if count == 0 {
        assert(v@.subrange(0, n as int) =~= s@);
        parse_u64_range(&v, 0, n).is_some()
    } else if count == 1 {
        proof {
            lemma_dot_index(s@, k as int);
        }
        let ghost frac = s@.subrange(k + 1, n as int);
        let frac_str = s.substring_char(k + 1, n);
        let fractional_digits = byte_len(frac_str);
        if decimals == 0 || fractional_digits > decimals as usize {
            return false;
        }
        assert(v@.subrange(0, k as int) =~= s@.take(k as int));
        if parse_u64_range(&v, 0, k).is_none() {
            return false;
        }
        let padded = pad_fraction(&v, k + 1, decimals);
        let plen = padded.len();
        assert(padded@.subrange(0, plen as int) =~= padded@);
        parse_u64_range(&padded, 0, plen).is_some()
    } else {
        false
    }
}

/// The position of the first `.` in `v` (or `v.len()`) and the number of `.` in `v`.
fn scan_points(v: &Vec<char>) -> (r: (usize, usize))
    ensures
        r.1 as nat == count_char(v@, '.'),
        r.0 <= v@.len(),
        forall|k: int| 0 <= k < r.0 ==> v@[k] != '.',
        r.1 > 0 ==> r.0 < v@.len() && v@[r.0 as int] == '.',
{
    let n = v.len();
    let mut first = n;
    let mut count: usize = 0;
    let mut i: usize = 0;
    while i < n
        invariant
            n == v@.len(),
            i <= n,
            count as nat == count_char(v@.take(i as int), '.'),
            count <= i,
            first <= n,
            count == 0 ==> first == n,
            count > 0 ==> first < i && v@[first as int] == '.',
            forall|k: int| 0 <= k < i && k < first ==> v@[k] != '.',
        decreases n - i,
    {
        proof {
            lemma_count_char_step(v@, '.', i as int);
        }
        if v[i] == '.' {
            if count == 0 {
                first = i;
            }
            count = count + 1;
        }
        i = i + 1;
    }
    assert(v@.take(n as int) =~= v@);
    (first, count)
}

impl TokenAmount {
    /// An amount of `raw` units of `mint`.
    pub fn new(raw: u64, mint: Address, decimals: u8) -> (r: TokenAmount)
        ensures
            r.raw == raw,
            r.mint == mint,
            r.decimals == decimals,
    {
        TokenAmount { raw, mint, decimals }
    }

    /// Parses a human-readable amount (e.g. "0.001") into raw units.
    /// Fails on excess precision (e.g. "0.0000001" with 6 decimals).
    pub fn from_display(s: &str, mint: Address, decimals: u8) -> (r: Result<TokenAmount, ParseError>)
        requires
            decimals <= 19 || !amount_reaches_scale(s@, decimals),
        ensures
            parse_result_matches(r, s@, mint, decimals),
    {
        let v = chars_of(s);
        let n = v.len();
        if n == 0 {
            return Err(ParseError::InvalidFormat(text("empty string")));
        }
        let (k, count) = scan_points(&v);
        if count == 0 {
            match parse_u64_range(&v, 0, n) {
                None => {
                    assert(v@.subrange(0, n as int) =~= s@);
                    return Err(ParseError::InvalidFormat(String::from_str(s)));
                },
                Some(w) => {
                    assert(v@.subrange(0, n as int) =~= s@);
                    let scale = pow10_u64(decimals);
                    match w.checked_mul(scale) {
                        None => {
                            return Err(ParseError::InvalidFormat(text("overflow")));
                        },
                        Some(raw) => {
                            return Ok(TokenAmount { raw, mint, decimals });
                        },
                    }
                },
            }
        } else if count == 1 {
            proof {
                lemma_dot_index(s@, k as int);
            }
            let ghost frac = s@.subrange(k + 1, n as int);
            let frac_str = s.substring_char(k + 1, n);
            let fractional_digits = byte_len(frac_str);
            if decimals == 0 {
                return Err(ParseError::ExcessPrecision { fractional_digits, decimals });
            }
            if fractional_digits > decimals as usize {
                return Err(ParseError::ExcessPrecision { fractional_digits, decimals });
            }
            proof {
                lemma_encode_utf8_len(frac);
            }
            match parse_u64_range(&v, 0, k) {
                None => {
                    assert(v@.subrange(0, k as int) =~= s@.take(k as int));
                    return Err(ParseError::InvalidFormat(String::from_str(s)));
                },
                Some(w) => {
                    assert(v@.subrange(0, k as int) =~= s@.take(k as int));
                    let mut padded: Vec<char> = Vec::new();
                    let mut i = k + 1;
                    while i < n
                        invariant
                            k + 1 <= i <= n,
                            n == v@.len(),
                            padded@ == v@.subrange(k + 1, i as int),
                        decreases n - i,
                    {
                        padded.push(v[i]);
                        i = i + 1;
                        assert(padded@ =~= v@.subrange(k + 1, i as int));
                    }
                    assert(padded@ =~= frac);
                    let ghost frac_len = padded@.len();
                    while padded.len() < decimals as usize
                        invariant
                            frac_len == frac.len(),
                            frac_len <= decimals,
                            frac_len <= padded@.len() <= decimals,
                            padded@ == frac + zeros((padded@.len() - frac_len) as nat),
                        decreases decimals - padded@.len(),
                    {
                        padded.push('0');
                        assert(padded@ =~= frac + zeros((padded@.len() - frac_len) as nat));
                    }
                    assert(padded@ =~= padded_fraction(frac, decimals)) by {
                        if frac.len() >= decimals {
                            assert(zeros(0) =~= Seq::<char>::empty());
                            assert(frac + zeros(0) =~= frac);
                        }
                    }
                    let plen = padded.len();
                    assert(padded@.subrange(0, plen as int) =~= padded@);
                    match parse_u64_range(&padded, 0, plen) {
                        None => {
                            return Err(ParseError::InvalidFormat(String::from_str(s)));
                        },
                        Some(f) => {
                            let scale = pow10_u64(decimals);
                            match w.checked_mul(scale) {
                                None => {
                                    return Err(ParseError::InvalidFormat(text("overflow")));
                                },
                                Some(x) => match x.checked_add(f) {
                                    None => {
                                        return Err(ParseError::InvalidFormat(text("overflow")));
                                    },
                                    Some(raw) => {
                                        return Ok(TokenAmount { raw, mint, decimals });
                                    },
                                },
                            }
                        },
                    }
                },
            }
        } else {
            return Err(ParseError::InvalidFormat(String::from_str(s)));
        }
    }

    /// The human-readable rendering of this amount (for display only).
    pub fn display(&self) -> (r: String)
        requires
            self.decimals <= 19,
        ensures
            r@ == display_text(self.raw, self.decimals),
    {
        display_amount(self.raw, self.decimals)
    }
}

/// The decimal digits of `n` left-padded with zeros to `width` characters.
fn zero_padded_chars(n: u64, width: usize) -> (r: Vec<char>)
    ensures
        r@ == zero_padded(n as nat, width as nat),
{
    let t = u64_to_text(n);
    let tv = chars_of(t.as_str());
    let mut out: Vec<char> = Vec::new();
    if tv.len() < width {
        let pad = width - tv.len();
        let mut i: usize = 0;
        while i < pad
            invariant
                i <= pad,
                out@ == zeros(i as nat),
            decreases pad - i,
        {
            out.push('0');
            i = i + 1;
            assert(out@ =~= zeros(i as nat));
        }
    }
    let mut j: usize = 0;
    let ghost base = out@;
    while j < tv.len()
        invariant
            j <= tv@.len(),
            out@ == base + tv@.take(j as int),
        decreases tv.len() - j,
    {
        out.push(tv[j]);
        j = j + 1;
        assert(out@ =~= base + tv@.take(j as int));
    }
    assert(tv@.take(tv@.len() as int) =~= tv@);
    proof {
        if tv@.len() >= width {
            assert(out@ =~= decimal_text(n as nat));
        }
    }
    out
}

/// Trimming is taking the prefix up to just after the last non-zero character.
pub proof fn lemma_trim_trailing_zeros(text: Seq<char>, e: int)
    requires
        0 <= e <= text.len(),
        forall|k: int| e <= k < text.len() ==> text[k] == '0',
        e == 0 || text[e - 1] != '0',
    ensures
        trim_trailing_zeros(text) == text.take(e),
    decreases text.len(),
{
    if text.len() > e {
        assert(text.drop_last().len() >= e);
        lemma_trim_trailing_zeros(text.drop_last(), e);
        assert(text.drop_last().take(e) =~= text.take(e));
    } else {
        assert(text.take(e) =~= text);
    }
}

/// Formats a raw token amount as a human-readable display string.
pub fn display_amount(raw: u64, decimals: u8) -> (r: String)
    requires
        decimals <= 19,
    ensures
        r@ == display_text(raw, decimals),
{
    if decimals == 0 {
        return u64_to_text(raw);
    }
    let divisor = pow10_u64(decimals);
    proof {
        lemma_pow10_positive(decimals as nat);
    }
    let whole = raw / divisor;
    let frac = raw % divisor;
    if frac == 0 {
        return u64_to_text(whole);
    }
    let digits = zero_padded_chars(frac, decimals as usize);
    let mut e = digits.len();
    while e > 0 && digits[e - 1] == '0'
        invariant
            e <= digits@.len(),
            forall|k: int| e <= k < digits@.len() ==> digits@[k] == '0',
        decreases e,
    {
        e = e - 1;
    }
    proof {
        lemma_trim_trailing_zeros(digits@, e as int);
    }
    let mut out = u64_to_text(whole);
    push_char(&mut out, '.');
    push_chars(&mut out, &digits, 0, e);
    assert(digits@.subrange(0, e as int) =~= digits@.take(e as int));
    out
}

/// Counting over a concatenation adds the counts.
pub proof fn lemma_count_char_concat(a: Seq<char>, b: Seq<char>, c: char)
    ensures
        count_char(a + b, c) == count_char(a, c) + count_char(b, c),
    decreases b.len(),
{
    if b.len() == 0 {
        assert(a + b =~= a);
    } else {
        lemma_count_char_concat(a, b.drop_last(), c);
        assert((a + b).drop_last() =~= a + b.drop_last());
    }
}

/// Digit texts hold no decimal point and are ASCII.
pub proof fn lemma_digits_plain(t: Seq<char>)
    requires
        all_digits(t),
    ensures
        count_char(t, '.') == 0,
        is_ascii_chars(t),
        encode_utf8(t).len() == t.len(),
{
    assert forall|k: int| 0 <= k < t.len() implies t[k] != '.' by {
        assert(is_digit(t[k]));
    }
    lemma_count_char_absent(t, '.');
    assert forall|i: int| 0 <= i < t.len() implies '\0' <= #[trigger] t[i] <= '\u{7f}' by {
        assert(is_digit(t[i]));
    }
    is_ascii_chars_encode_utf8(t);
}

/// A number below `10^k` (k at least one) has at most `k` digits.
pub proof fn lemma_decimal_text_len(n: nat, k: nat)
    requires
        k >= 1,
        n < pow10(k),
    ensures
        decimal_text(n).len() <= k,
    decreases n,
{
    if n >= 10 {
        let k1 = (k - 1) as nat;
        if k == 1 {
            assert(pow10(1) == 10 * pow10(0));
        } else {
            assert(pow10(k) == 10 * pow10(k1));
            assert(n / 10 < pow10(k1));
            lemma_decimal_text_len(n / 10, k1);
        }
    }
}

/// Trimming removes a run of trailing zeros and nothing else.
pub proof fn lemma_trim_shape(t: Seq<char>)
    ensures
        trim_trailing_zeros(t).len() <= t.len(),
        trim_trailing_zeros(t) == t.take(trim_trailing_zeros(t).len() as int),
        forall|k: int| trim_trailing_zeros(t).len() <= k < t.len() ==> t[k] == '0',
    decreases t.len(),
{
    if t.len() > 0 && t.last() == '0' {
        lemma_trim_shape(t.drop_last());
        let r = trim_trailing_zeros(t.drop_last());
        assert(t.drop_last().take(r.len() as int) =~= t.take(r.len() as int));
        assert forall|k: int| r.len() <= k < t.len() implies t[k] == '0' by {
            if k < t.len() - 1 {
                assert(t[k] == t.drop_last()[k]);
            }
        }
    } else {
        assert(t.take(t.len() as int) =~= t);
    }
}

/// The zero-padded rendering of `n < 10^width` has exactly `width` digits worth `n`.
pub proof fn lemma_zero_padded(n: nat, width: nat)
    requires
        width >= 1,
        n < pow10(width),
    ensures
        zero_padded(n, width).len() == width,
        all_digits(zero_padded(n, width)),
        digits_value(zero_padded(n, width)) == n,
{
    lemma_decimal_text(n);
    lemma_decimal_text_len(n, width);
    let t = decimal_text(n);
    if t.len() < width {
        let z = zeros((width - t.len()) as nat);
        lemma_digits_value_zeros((width - t.len()) as nat);
        lemma_digits_value_append(z, t);
        assert(digits_value(z) * pow10(t.len()) == 0);
        assert(zero_padded(n, width) == z + t);
        assert forall|i: int| 0 <= i < (z + t).len() implies is_digit(#[trigger] (z + t)[i]) by {
            if i < z.len() {
                assert(is_digit(z[i]));
            } else {
                assert((z + t)[i] == t[i - z.len()]);
            }
        }
    }
}

/// Parsing what [`display_amount`] renders gives back the raw amount.
pub proof fn law_display_round_trip(raw: u64, decimals: u8)
    requires
        decimals <= 19,
    ensures
        amount_from_display(display_text(raw, decimals), decimals) == Ok::<u64, AmountRejection>(raw),
{
    let d = decimals as nat;
    let p = pow10(d);
    lemma_pow10_positive(d);
    let s = display_text(raw, decimals);
    if decimals == 0 {
        lemma_decimal_text(raw as nat);
        lemma_digits_plain(s);
        lemma_parse_decimal_text(raw);
        assert(p == 1);
    } else {
        let whole = raw as nat / p;
        let frac = raw as nat % p;
        vstd::arithmetic::div_mod::lemma_fundamental_div_mod(raw as int, p as int);
        assert(whole * p + frac == raw);
        assert(whole <= raw) by (nonlinear_arith)
            requires
                whole * p + frac == raw,
                p >= 1,
                frac >= 0,
        ;
        let w = decimal_text(whole);
        lemma_decimal_text(whole);
        lemma_digits_plain(w);
        lemma_parse_decimal_text(whole as u64);
        if frac == 0 {
            assert(s == w);
        } else {
            let z = zero_padded(frac, d);
            lemma_zero_padded(frac, d);
            let t = trim_trailing_zeros(z);
            lemma_trim_shape(z);
            assert(s == w + seq!['.'] + t);
            assert forall|i: int| 0 <= i < t.len() implies is_digit(#[trigger] t[i]) by {
                assert(t[i] == z[i]);
            }
            lemma_digits_plain(t);
            let k = w.len() as int;
            assert(s[k] == '.');
            lemma_count_char_concat(w, seq!['.'], '.');
            lemma_count_char_concat(w + seq!['.'], t, '.');
            let one: Seq<char> = seq!['.'];
            assert(count_char(one, '.') == 1) by {
                assert(one.drop_last() =~= Seq::<char>::empty());
                assert(count_char(one.drop_last(), '.') == 0);
                assert(one.last() == '.');
            }
            lemma_dot_index(s, k);
            assert(s.take(k) =~= w);
            assert(s.subrange(k + 1, s.len() as int) =~= t);
            assert(padded_fraction(t, decimals) =~= z) by {
                if t.len() < d {
                    assert(z =~= t + zeros((d - t.len()) as nat));
                } else {
                    assert(t.len() == z.len());
                    assert(t =~= z);
                }
            }
            assert(is_digit(z[0]));
            assert(parse_u64_spec(z) == Some(frac as u64));
        }
    }
}

/// A digit text of length `n` has a value below `10^n`.
pub proof fn lemma_digits_value_bound(t: Seq<char>)
    requires
        all_digits(t),
    ensures
        digits_value(t) < pow10(t.len()),
    decreases t.len(),
{
    if t.len() > 0 {
        lemma_digits_value_bound(t.drop_last());
        assert(is_digit(t[t.len() - 1]));
    }
}

/// Parsing a whole number `w` (a nonempty digit text) for a token with
/// `decimals` decimals succeeds exactly when `w * 10^decimals` fits in 64
/// bits, and gives that value.
pub proof fn law_amount_whole_digits(w: Seq<char>, decimals: u8)
    requires
        decimals <= 19,
        w.len() > 0,
        all_digits(w),
    ensures
        ({
            let v = digits_value(w) * pow10(decimals as nat);
            &&& (amount_from_display(w, decimals) is Ok) == (v <= u64::MAX)
            &&& v <= u64::MAX ==> amount_from_display(w, decimals) == Ok::<u64, AmountRejection>(v as u64)
        }),
{
    lemma_digits_plain(w);
    assert(is_digit(w[0]));
    lemma_pow10_positive(decimals as nat);
    let p = pow10(decimals as nat);
    assert(digits_value(w) <= digits_value(w) * p) by (nonlinear_arith)
        requires
            p >= 1,
    ;
}

/// Parsing `w.f` (a nonempty digit text `w`, a point, and a digit text `f` of
/// `k` digits) for a token with `decimals` decimals: with no decimals, or
/// more fractional digits than decimals, it is refused for excess precision
/// (naming `k`); otherwise it succeeds exactly when
/// `w * 10^decimals + f * 10^(decimals - k)` fits in 64 bits, and gives that
/// value.
pub proof fn law_amount_fraction_digits(w: Seq<char>, f: Seq<char>, decimals: u8)
    requires
        decimals <= 19,
        w.len() > 0,
        all_digits(w),
        all_digits(f),
    ensures
        ({
            let s = w + seq!['.'] + f;
            let k = f.len();
            &&& (decimals == 0 || k > decimals) ==> amount_from_display(s, decimals) == Err::<
                u64,
                AmountRejection,
            >(AmountRejection::ExcessPrecision(k as usize))
            &&& !(decimals == 0 || k > decimals) ==> {
                let v = digits_value(w) * pow10(decimals as nat) + digits_value(f) * pow10(
                    (decimals - k) as nat,
                );
                &&& (amount_from_display(s, decimals) is Ok) == (v <= u64::MAX)
                &&& v <= u64::MAX ==> amount_from_display(s, decimals) == Ok::<u64, AmountRejection>(v as u64)
            }
        }),
{
    let s = w + seq!['.'] + f;
    let k = f.len();
    let d = decimals as nat;
    lemma_digits_plain(w);
    lemma_digits_plain(f);
    lemma_count_char_concat(w, seq!['.'], '.');
    lemma_count_char_concat(w + seq!['.'], f, '.');
    let dot: Seq<char> = seq!['.'];
    assert(dot.drop_last() =~= Seq::<char>::empty());
    assert(count_char(Seq::<char>::empty(), '.') == 0);
    assert(dot.len() == 1 && dot.last() == '.');
    assert(count_char(dot, '.') == count_char(dot.drop_last(), '.') + 1);
    assert(count_char(dot, '.') == 1);
    assert(s.len() > 0);
    assert(s[w.len() as int] == '.');
    lemma_dot_index(s, w.len() as int);
    assert(s.take(w.len() as int) =~= w);
    assert(s.subrange(w.len() as int + 1, s.len() as int) =~= f);
    if !(decimals == 0 || k > decimals) {
        let z = zeros((d - k) as nat);
        let pf = padded_fraction(f, decimals);
        lemma_digits_value_zeros((d - k) as nat);
        lemma_digits_value_append(f, z);
        assert(digits_value(f + z) == digits_value(f) * pow10((d - k) as nat));
        if k < d {
            assert(pf == f + z);
        } else {
            assert(z =~= Seq::<char>::empty());
            assert(f + z =~= f);
        }
        assert(pf =~= f + z);
        assert(pf.len() == d);
        assert forall|i: int| 0 <= i < pf.len() implies is_digit(#[trigger] pf[i]) by {
            if i < f.len() {
                assert(pf[i] == f[i]);
            } else {
                assert(pf[i] == z[i - f.len()]);
            }
        }
        assert(is_digit(pf[0]));
        lemma_digits_value_bound(f);
        lemma_pow10_monotone(d, 19);
        lemma_pow10_19();
        lemma_pow10_positive((d - k) as nat);
        let pk = pow10(k);
        let pdk = pow10((d - k) as nat);
        assert(pow10(d) == pk * pdk) by {
            lemma_pow10_split(k, (d - k) as nat);
        }
        assert(digits_value(f) * pdk < pow10(d)) by (nonlinear_arith)
            requires
                digits_value(f) < pk,
                pdk >= 1,
                pow10(d) == pk * pdk,
        ;
        assert(is_digit(w[0]));
        lemma_pow10_positive(d);
        let p = pow10(d);
        assert(digits_value(w) <= digits_value(w) * p) by (nonlinear_arith)
            requires
                p >= 1,
        ;
    }
}

/// `10^(a + b) == 10^a * 10^b`.
pub proof fn lemma_pow10_split(a: nat, b: nat)
    ensures
        pow10(a + b) == pow10(a) * pow10(b),
    decreases b,
{
    if b > 0 {
        lemma_pow10_split(a, (b - 1) as nat);
        assert(pow10(a + b) == 10 * pow10((a + b - 1) as nat));
        assert(pow10(a) * pow10(b) == pow10(a) * (10 * pow10((b - 1) as nat)));
        assert(pow10(a) * (10 * pow10((b - 1) as nat)) == 10 * (pow10(a) * pow10((b - 1) as nat))) by (nonlinear_arith);
    } else {
        assert(pow10(0) == 1);
        assert(a + b == a);
    }
}

} // verus!
