//! Classes of bytes, numbers spelled in digits, and text made of ASCII bytes.
use vstd::prelude::*;
use vstd::utf8::{
    codepoint_width_1, decode_first_codepoint, decode_utf8, leading_bits_width_1,
    pop_first_scalar, valid_utf8,
};

verus! {

/// `0`-`9`, `A`-`F` or `a`-`f`.
pub open spec fn is_hex_digit(b: u8) -> bool {
    (0x30 <= b <= 0x39) || (0x41 <= b <= 0x46) || (0x61 <= b <= 0x66)
}

/// `0` or `1`.
pub open spec fn is_bit(b: u8) -> bool {
    b == 0x30 || b == 0x31
}

/// An ASCII letter.
pub open spec fn is_alpha(b: u8) -> bool {
    (0x41 <= b <= 0x5A) || (0x61 <= b <= 0x7A)
}

/// An ASCII letter or decimal digit.
pub open spec fn is_alnum(b: u8) -> bool {
    is_alpha(b) || (0x30 <= b <= 0x39)
}

/// A space or a tab.
pub open spec fn is_space(b: u8) -> bool {
    b == 0x20 || b == 0x09
}

/// A printable ASCII character other than the space.
pub open spec fn is_graphic(b: u8) -> bool {
    0x21 <= b <= 0x7E
}

/// The value of a digit (`0`-`9`, then `A`-`F` in either case).
pub open spec fn digit_value(b: u8) -> nat {
    if b <= 0x39 {
        (b - 0x30) as nat
    } else if b <= 0x46 {
        (b - 0x41 + 10) as nat
    } else {
        (b - 0x61 + 10) as nat
    }
}

pub open spec fn all_hex(s: Seq<u8>) -> bool {
    forall|i: int| 0 <= i < s.len() ==> is_hex_digit(#[trigger] s[i])
}

pub open spec fn all_bits(s: Seq<u8>) -> bool {
    forall|i: int| 0 <= i < s.len() ==> is_bit(#[trigger] s[i])
}

pub open spec fn all_alnum(s: Seq<u8>) -> bool {
    forall|i: int| 0 <= i < s.len() ==> is_alnum(#[trigger] s[i])
}

/// The number that the digits `s` spell in base `radix`, most significant first.
pub open spec fn number(s: Seq<u8>, radix: nat) -> nat
    decreases s.len(),
{
    if s.len() == 0 {
        0
    } else {
        number(s.drop_last(), radix) * radix + digit_value(s.last())
    }
}

/// A number never shrinks when more digits follow.
pub proof fn lemma_number_prefix(s: Seq<u8>, radix: nat, k: int)
    requires
        0 <= k <= s.len(),
        radix >= 1,
    ensures
        number(s.take(k), radix) <= number(s, radix),
    decreases s.len(),
{
    if k == s.len() {
        assert(s.take(k) =~= s);
    } else {
        lemma_number_prefix(s.drop_last(), radix, k);
        assert(s.drop_last().take(k) =~= s.take(k));
        let m = number(s.drop_last(), radix);
        assert(m <= m * radix) by (nonlinear_arith)
            requires
                radix >= 1,
        ;
    }
}

/// `r` to the power `n`.
pub open spec fn power(r: nat, n: nat) -> nat
    decreases n,
{
    if n == 0 {
        1
    } else {
        power(r, (n - 1) as nat) * r
    }
}

/// `n` digits, each below `radix`, spell a number below `radix` to the `n`.
pub proof fn lemma_number_bound(s: Seq<u8>, radix: nat)
    requires
        radix == 2 ==> all_bits(s),
        radix == 16 ==> all_hex(s),
        radix == 2 || radix == 16,
    ensures
        number(s, radix) < power(radix, s.len()),
    decreases s.len(),
{
    if s.len() > 0 {
        let init = s.drop_last();
        assert(radix == 2 ==> all_bits(init));
        assert(radix == 16 ==> all_hex(init));
        lemma_number_bound(init, radix);
        let m = number(init, radix);
        let p = power(radix, init.len());
        let d = digit_value(s.last());
        assert(d < radix);
        assert(m * radix + d < p * radix) by (nonlinear_arith)
            requires
                m < p,
                d < radix,
        ;
    }
}

/// The value of the hexadecimal digit `b`.
fn hex_digit(b: u8) -> (r: Option<usize>)
    ensures
        match r {
            Some(d) => is_hex_digit(b) && d == digit_value(b),
            None => !is_hex_digit(b),
        },
{
    if 0x30 <= b && b <= 0x39 {
        Some((b - 0x30) as usize)
    } else if 0x41 <= b && b <= 0x46 {
        Some((b - 0x41 + 10) as usize)
    } else if 0x61 <= b && b <= 0x66 {
        Some((b - 0x61 + 10) as usize)
    } else {
        None
    }
}

/// Reads `v` as an unsigned hexadecimal number. Fails on an empty input, on a
/// byte that is not a hexadecimal digit, and on a number that does not fit.
pub fn u8_to_hex(v: &[u8]) -> (r: Result<usize, ()>)
    ensures
        match r {
            Ok(n) => v@.len() > 0 && all_hex(v@) && n == number(v@, 16),
            Err(_) => !(v@.len() > 0 && all_hex(v@) && number(v@, 16) <= usize::MAX),
        },
{
    if v.len() == 0 {
        return Err(());
    }
    let mut value: usize = 0;
    let mut i: usize = 0;
    while i < v.len()
        invariant
            0 <= i <= v@.len(),
            all_hex(v@.take(i as int)),
            value == number(v@.take(i as int), 16),
        decreases v@.len() - i,
    {
        let d = match hex_digit(v[i]) {
            Some(d) => d,
            None => {
                return Err(());
            },
        };
        assert(v@.take(i + 1).drop_last() =~= v@.take(i as int));
        if value > (usize::MAX - d) / 16 {
            proof {
                assert(value * 16 + d > usize::MAX) by (nonlinear_arith)
                    requires
                        value > (usize::MAX - d) / 16,
                        d <= 15,
                ;
                lemma_number_prefix(v@, 16, i + 1);
            }
            return Err(());
        }
        assert(value * 16 + d <= usize::MAX) by (nonlinear_arith)
            requires
                value <= (usize::MAX - d) / 16,
                d <= 15,
        ;
        value = value * 16 + d;
        i = i + 1;
    }
    assert(v@.take(v@.len() as int) =~= v@);
    Ok(value)
}

/// Reads `v` as an unsigned binary number (the empty input reads as zero). Fails
/// on a byte other than `0` and `1`, and on a number that does not fit.
pub fn bin_to_hex(v: &[u8]) -> (r: Result<usize, ()>)
    ensures
        match r {
            Ok(n) => all_bits(v@) && n == number(v@, 2),
            Err(_) => !(all_bits(v@) && number(v@, 2) <= usize::MAX),
        },
{
    let mut value: usize = 0;
    let mut i: usize = 0;
    while i < v.len()
        invariant
            0 <= i <= v@.len(),
            all_bits(v@.take(i as int)),
            value == number(v@.take(i as int), 2),
        decreases v@.len() - i,
    {
        let b = v[i];
        let bit: usize = if b == 0x30 {
            0
        } else if b == 0x31 {
            1
        } else {
            return Err(());
        };
        assert(v@.take(i + 1).drop_last() =~= v@.take(i as int));
        if value > (usize::MAX - bit) / 2 {
            proof {
                lemma_number_prefix(v@, 2, i + 1);
            }
            return Err(());
        }
        value = value * 2 + bit;
        i = i + 1;
    }
    assert(v@.take(v@.len() as int) =~= v@);
    Ok(value)
}

/// Whether `c` is a printable ASCII character other than the space.
pub fn is_symbol(c: u8) -> (r: bool)
    ensures
        r == is_graphic(c),
{
    0x21 <= c && c <= 0x7E
}

/// Whether `c` is an ASCII letter.
pub fn is_alphabetic(c: u8) -> (r: bool)
    ensures
        r == is_alpha(c),
{
    (0x41 <= c && c <= 0x5A) || (0x61 <= c && c <= 0x7A)
}

/// Whether `c` is an ASCII letter or decimal digit.
pub fn is_alphanumeric(c: u8) -> (r: bool)
    ensures
        r == is_alnum(c),
{
    is_alphabetic(c) || (0x30 <= c && c <= 0x39)
}

/// Bytes of ASCII characters only are valid UTF-8.
pub proof fn lemma_ascii_valid_utf8(s: Seq<u8>)
    requires
        forall|i: int| 0 <= i < s.len() ==> s[i] <= 0x7F,
    ensures
        valid_utf8(s),
    decreases s.len(),
{
    if s.len() > 0 {
        let b = s[0];
        assert(b & 0x7F <= 0x7F) by (bit_vector);
        assert(codepoint_width_1(b) == leading_bits_width_1(b));
        assert(decode_first_codepoint(s) == codepoint_width_1(b));
        let rest = pop_first_scalar(s);
        assert(rest =~= s.subrange(1, s.len() as int));
        lemma_ascii_valid_utf8(rest);
    }
}

/// Relies on `String::from_utf8`: the text that `bytes` encode, if they are valid UTF-8.
#[verifier::external_body]
fn string_from_utf8(bytes: Vec<u8>) -> (r: Option<String>)
    ensures
        r is Some <==> valid_utf8(bytes@),
        r matches Some(s) ==> s@ == decode_utf8(bytes@),
{
    String::from_utf8(bytes).ok()
}

/// The text spelled by `bytes`, all of which are ASCII letters and digits.
pub(crate) fn ascii_string(bytes: &[u8]) -> (r: String)
    requires
        all_alnum(bytes@),
    ensures
        r@ == decode_utf8(bytes@),
{
    proof {
        lemma_ascii_valid_utf8(bytes@);
    }
    match string_from_utf8(vstd::slice::slice_to_vec(bytes)) {
        Some(s) => s,
        None => String::new(),
    }
}

} // verus!
