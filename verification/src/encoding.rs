//! Decimal text handling: parsing the marketplace's decimal-string amounts
//! and rendering the funding transaction reference.
//!
//! The marketplace reports channel sizes and invoice amounts as decimal
//! strings; they are parsed here, exactly and with overflow detection. The
//! funding transaction is reported back as `txid:outputIndex`, built here
//! from the transaction id and a decimal rendering of the index.

use vstd::prelude::*;

verus! {

/// Numeric value of one decimal digit character (meaningful only for
/// characters between '0' and '9').
pub open spec fn spec_digit_val(c: char) -> int {
    c as int - '0' as int
}

/// Whether `c` is a decimal digit.
pub open spec fn spec_is_digit(c: char) -> bool {
    '0' <= c <= '9'
}

/// Whether every character of `s` is a decimal digit.
pub open spec fn spec_all_digits(s: Seq<char>) -> bool {
    forall|i: int| 0 <= i < s.len() ==> spec_is_digit(#[trigger] s[i])
}

/// Numeric value of a decimal digit string, read left to right.
pub open spec fn spec_dec_value(s: Seq<char>) -> int
    decreases s.len(),
{
    if s.len() == 0 {
        0
    } else {
        spec_dec_value(s.drop_last()) * 10 + spec_digit_val(s.last())
    }
}

/// The decimal digit character for a value below ten.
pub open spec fn spec_digit_char(d: int) -> char {
    if d == 0 { '0' }
    else if d == 1 { '1' }
    else if d == 2 { '2' }
    else if d == 3 { '3' }
    else if d == 4 { '4' }
    else if d == 5 { '5' }
    else if d == 6 { '6' }
    else if d == 7 { '7' }
    else if d == 8 { '8' }
    else { '9' }
}

/// Canonical decimal rendering of a non-negative number: no sign, no leading
/// zero except for the number zero itself.
pub open spec fn spec_dec_digits(n: int) -> Seq<char>
    decreases n,
{
    if n <= 9 {
        seq![spec_digit_char(n)]
    } else {
        spec_dec_digits(n / 10).push(spec_digit_char(n % 10))
    }
}

/// A digit string's value never shrinks as the string grows to the right.
pub proof fn lemma_dec_value_nonneg(s: Seq<char>)
    requires
        spec_all_digits(s),
    ensures
        spec_dec_value(s) >= 0,
    decreases s.len(),
{
    if s.len() > 0 {
        assert(spec_all_digits(s.drop_last()));
        lemma_dec_value_nonneg(s.drop_last());
    }
}

/// Extending a digit string by its next character multiplies the value by ten
/// and adds the digit.
pub proof fn lemma_dec_value_take_succ(s: Seq<char>, k: int)
    requires
        0 <= k < s.len(),
    ensures
        spec_dec_value(s.take(k + 1)) == spec_dec_value(s.take(k)) * 10 + spec_digit_val(s[k]),
{
    let t = s.take(k + 1);
    assert(t.drop_last() =~= s.take(k));
    assert(t.last() == s[k]);
}

/// Over an all-digit string, the value of a prefix never exceeds the value of
/// the whole string.
pub proof fn lemma_dec_value_prefix_le(s: Seq<char>, k: int)
    requires
        0 <= k <= s.len(),
        spec_all_digits(s),
    ensures
        spec_dec_value(s.take(k)) <= spec_dec_value(s),
    decreases s.len() - k,
{
    if k == s.len() {
        assert(s.take(k) =~= s);
    } else {
        lemma_dec_value_take_succ(s, k);
        assert(spec_all_digits(s.take(k)));
        lemma_dec_value_nonneg(s.take(k));
        assert(spec_dec_value(s.take(k)) * 10 >= spec_dec_value(s.take(k))) by (nonlinear_arith)
            requires
                spec_dec_value(s.take(k)) >= 0,
        ;
        lemma_dec_value_prefix_le(s, k + 1);
    }
}

/// Parse a decimal-string satoshi amount, as the marketplace reports sizes
/// and invoice amounts. Returns the exact value when the string is non-empty,
/// all digits, and fits in 64 bits; `None` otherwise.
pub fn parse_sats(s: &str) -> (r: Option<u64>)
    ensures
        match r {
            Some(v) => {
                &&& s@.len() > 0
                &&& spec_all_digits(s@)
                &&& v == spec_dec_value(s@)
            },
            None => !(s@.len() > 0 && spec_all_digits(s@) && spec_dec_value(s@)
                <= u64::MAX),
        },
{
    let n = s.unicode_len();
    if n == 0 {
        return None;
    }
    let mut acc: u64 = 0;
    let mut i: usize = 0;
    while i < n
        invariant
            n == s@.len(),
            0 <= i <= n,
            spec_all_digits(s@.take(i as int)),
            acc == spec_dec_value(s@.take(i as int)),
        decreases n - i,
    {
        let c = s.get_char(i);
        if c < '0' || c > '9' {
            return None;
        }
        let d: u64 = (c as u32 - '0' as u32) as u64;
        proof {
            lemma_dec_value_take_succ(s@, i as int);
        }
        if acc > (u64::MAX - d) / 10 {
            proof {
                let pre = s@.take(i as int + 1);
                assert(spec_all_digits(pre));
                assert(acc * 10 + d > u64::MAX) by (nonlinear_arith)
                    requires
                        acc > (u64::MAX - d) / 10,
                        0 <= d <= 9,
                        acc >= 0,
                ;
                if spec_all_digits(s@) {
                    lemma_dec_value_prefix_le(s@, i as int + 1);
                }
            }
            return None;
        }
        acc = acc * 10 + d;
        i = i + 1;
    }
    proof {
        assert(s@.take(n as int) =~= s@);
    }
    Some(acc)
}

/// The lowercase hexadecimal digit character for a value below sixteen.
pub open spec fn spec_hex_digit(v: int) -> char {
    if v == 0 { '0' }
    else if v == 1 { '1' }
    else if v == 2 { '2' }
    else if v == 3 { '3' }
    else if v == 4 { '4' }
    else if v == 5 { '5' }
    else if v == 6 { '6' }
    else if v == 7 { '7' }
    else if v == 8 { '8' }
    else if v == 9 { '9' }
    else if v == 10 { 'a' }
    else if v == 11 { 'b' }
    else if v == 12 { 'c' }
    else if v == 13 { 'd' }
    else if v == 14 { 'e' }
    else { 'f' }
}

/// Lowercase hex rendering of a byte string: two digits per byte, high nibble
/// first.
pub open spec fn spec_hex_of(bytes: Seq<u8>) -> Seq<char> {
    Seq::new(
        bytes.len() * 2,
        |i: int|
            if i % 2 == 0 {
                spec_hex_digit(bytes[i / 2] as int / 16)
            } else {
                spec_hex_digit(bytes[i / 2] as int % 16)
            },
    )
}

/// Relies on `hex::encode`: each input byte becomes two lowercase hex digits,
/// high nibble first, in input order.
#[verifier::external_body]
pub(crate) fn encode_hex(bytes: &Vec<u8>) -> (r: String)
    ensures
        r@ == spec_hex_of(bytes@),
{
    hex::encode(bytes.as_slice())
}

/// The one-character string for a decimal digit value.
fn digit_str(d: u64) -> (r: &'static str)
    requires
        d <= 9,
    ensures
        r@ =~= seq![spec_digit_char(d as int)],
{
    proof {
        reveal_strlit("0");
        reveal_strlit("1");
        reveal_strlit("2");
        reveal_strlit("3");
        reveal_strlit("4");
        reveal_strlit("5");
        reveal_strlit("6");
        reveal_strlit("7");
        reveal_strlit("8");
        reveal_strlit("9");
    }
    if d == 0 { "0" }
    else if d == 1 { "1" }
    else if d == 2 { "2" }
    else if d == 3 { "3" }
    else if d == 4 { "4" }
    else if d == 5 { "5" }
    else if d == 6 { "6" }
    else if d == 7 { "7" }
    else if d == 8 { "8" }
    else { "9" }
}

/// Canonical decimal rendering of a number: digits only, no leading zero
/// except for zero itself.
pub fn u64_to_decimal(n: u64) -> (s: String)
    ensures
        s@ == spec_dec_digits(n as int),
    decreases n,
{
    if n <= 9 {
        let s = digit_str(n).to_owned();
        proof {
            assert(s@ =~= spec_dec_digits(n as int));
        }
        s
    } else {
        let mut s = u64_to_decimal(n / 10);
        s.append(digit_str(n % 10));
        proof {
            assert(s@ =~= spec_dec_digits(n as int));
        }
        s
    }
}

/// The `txid:outputIndex` reference under which a funding transaction is
/// recorded with the marketplace.
pub fn tx_point(txid_hex: &str, output_index: u32) -> (s: String)
    ensures
        s@ == txid_hex@ + seq![':'] + spec_dec_digits(output_index as int),
{
    let mut s = txid_hex.to_owned();
    s.append(":");
    let index_str = u64_to_decimal(output_index as u64);
    s.append(index_str.as_str());
    proof {
        reveal_strlit(":");
        assert(s@ =~= txid_hex@ + seq![':'] + spec_dec_digits(output_index as int));
    }
    s
}

} // verus!
