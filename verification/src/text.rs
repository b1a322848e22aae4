//! Decimal and hexadecimal rendering of integers into `String`s.

use vstd::prelude::*;
use vstd::string::*;

verus! {

/// The character of a decimal or hexadecimal digit (lower case).
pub open spec fn digit_char(d: nat) -> char {
    if d == 0 { '0' }
    else if d == 1 { '1' }
    else if d == 2 { '2' }
    else if d == 3 { '3' }
    else if d == 4 { '4' }
    else if d == 5 { '5' }
    else if d == 6 { '6' }
    else if d == 7 { '7' }
    else if d == 8 { '8' }
    else if d == 9 { '9' }
    else if d == 10 { 'a' }
    else if d == 11 { 'b' }
    else if d == 12 { 'c' }
    else if d == 13 { 'd' }
    else if d == 14 { 'e' }
    else { 'f' }
}

/// The value of a digit character, the inverse of `digit_char` on `0..16`.
pub open spec fn char_digit(c: char) -> nat {
    if c == '1' { 1 }
    else if c == '2' { 2 }
    else if c == '3' { 3 }
    else if c == '4' { 4 }
    else if c == '5' { 5 }
    else if c == '6' { 6 }
    else if c == '7' { 7 }
    else if c == '8' { 8 }
    else if c == '9' { 9 }
    else if c == 'a' { 10 }
    else if c == 'b' { 11 }
    else if c == 'c' { 12 }
    else if c == 'd' { 13 }
    else if c == 'e' { 14 }
    else if c == 'f' { 15 }
    else { 0 }
}

/// Shortest decimal notation of a natural number, as `{}` prints it.
pub open spec fn dec(n: nat) -> Seq<char>
    decreases n,
{
    if n < 10 {
        seq![digit_char(n)]
    } else {
        dec(n / 10).push(digit_char(n % 10))
    }
}

/// Decimal notation of an integer, with a leading `-` when it is negative.
pub open spec fn dec_int(n: int) -> Seq<char> {
    if n < 0 {
        seq!['-'] + dec((-n) as nat)
    } else {
        dec(n as nat)
    }
}

/// The lowest `width` hexadecimal digits of `n`, most significant first,
/// padded with zeros.
pub open spec fn hex_pad(n: nat, width: nat) -> Seq<char>
    decreases width,
{
    if width == 0 {
        Seq::empty()
    } else {
        hex_pad(n / 16, (width - 1) as nat).push(digit_char(n % 16))
    }
}

/// The number that a sequence of digits in base `base` denotes.
pub open spec fn digits_value(s: Seq<char>, base: nat) -> nat
    decreases s.len(),
{
    if s.len() == 0 {
        0
    } else {
        digits_value(s.drop_last(), base) * base + char_digit(s.last())
    }
}

/// The digits are written `0` to `9`, then `a` to `f`.
pub proof fn law_digit_chars()
    ensures
        digit_char(0) == '0', digit_char(1) == '1', digit_char(2) == '2', digit_char(3) == '3',
        digit_char(4) == '4', digit_char(5) == '5', digit_char(6) == '6', digit_char(7) == '7',
        digit_char(8) == '8', digit_char(9) == '9', digit_char(10) == 'a', digit_char(11) == 'b',
        digit_char(12) == 'c', digit_char(13) == 'd', digit_char(14) == 'e', digit_char(15) == 'f',
{
}

proof fn lemma_char_digit(d: nat)
    requires
        d < 16,
    ensures
        char_digit(digit_char(d)) == d,
{
}

/// Reading back the decimal notation gives the number that was printed.
pub proof fn law_decimal_reads_back(n: nat)
    ensures
        digits_value(dec(n), 10) == n,
        dec(n).len() >= 1,
    decreases n,
{
    if n >= 10 {
        law_decimal_reads_back(n / 10);
        lemma_char_digit(n % 10);
        assert(dec(n).drop_last() =~= dec(n / 10));
        assert(dec(n).last() == digit_char(n % 10));
        assert(digits_value(dec(n), 10) == digits_value(dec(n / 10), 10) * 10 + char_digit(digit_char(n % 10)));
        assert(n == (n / 10) * 10 + n % 10) by (nonlinear_arith);
    } else {
        lemma_char_digit(n);
        assert(dec(n).drop_last() =~= Seq::<char>::empty());
        assert(digits_value(Seq::<char>::empty(), 10) == 0);
        assert(dec(n).last() == digit_char(n));
    }
}

/// A signed number's text starts with `-` exactly when it is negative, and
/// the digits that follow read back as its magnitude.
pub proof fn law_signed_reads_back(n: int)
    ensures
        dec_int(n).len() >= 1,
        (dec_int(n)[0] == '-') <==> n < 0,
        n < 0 ==> digits_value(dec_int(n).drop_first(), 10) == -n,
        n >= 0 ==> digits_value(dec_int(n), 10) == n,
{
    if n < 0 {
        law_decimal_reads_back((-n) as nat);
        assert(dec_int(n).drop_first() =~= dec((-n) as nat));
    } else {
        law_decimal_reads_back(n as nat);
        lemma_first_digit_not_minus(n as nat);
    }
}

proof fn lemma_first_digit_not_minus(n: nat)
    ensures
        dec(n).len() >= 1,
        dec(n)[0] != '-',
    decreases n,
{
    if n >= 10 {
        lemma_first_digit_not_minus(n / 10);
    }
}

/// Reading back the padded hexadecimal notation gives the number modulo `16^width`.
pub proof fn law_hex_reads_back(n: nat, width: nat)
    ensures
        digits_value(hex_pad(n, width), 16) == (n as int) % vstd::arithmetic::power::pow(16, width),
        hex_pad(n, width).len() == width,
    decreases width,
{
    vstd::arithmetic::power::lemma_pow_positive(16, width);
    if width == 0 {
        vstd::arithmetic::power::lemma_pow0(16);
    } else {
        let w1 = (width - 1) as nat;
        law_hex_reads_back(n / 16, w1);
        assert(hex_pad(n, width).drop_last() =~= hex_pad(n / 16, w1));
        let p: int = vstd::arithmetic::power::pow(16, w1);
        vstd::arithmetic::power::lemma_pow_positive(16, w1);
        vstd::arithmetic::power::lemma_pow1(16);
        vstd::arithmetic::power::lemma_pow_adds(16, 1, w1);
        assert(vstd::arithmetic::power::pow(16, width) == 16 * p) by {
            assert(1 + w1 == width);
        }
        let ni: int = n as int;
        lemma_char_digit(n % 16);
        vstd::arithmetic::div_mod::lemma_breakdown(ni, 16, p);
        assert(digits_value(hex_pad(n, width), 16) == ((ni / 16) % p) * 16 + ni % 16);
        assert(((ni / 16) % p) * 16 + ni % 16 == ni % (16 * p)) by (nonlinear_arith)
            requires
                p > 0,
                ni % (16 * p) == 16 * ((ni / 16) % p) + ni % 16,
        ;
    }
}

/// A one-character string holding the digit `d` (`d < 16`).
fn digit_str(d: u64) -> (s: &'static str)
    requires
        d < 16,
    ensures
        s@ == seq![digit_char(d as nat)],
{
    proof {
        reveal_strlit("0");
        reveal_strlit("1");
        reveal_strlit("2");
        reveal_strlit("3");
        reveal_strlit("4");
        reveal_strlit("5");
        reveal_strlit("6");
        reveal_strlit("7");
        reveal_strlit("8");
        reveal_strlit("9");
        reveal_strlit("a");
        reveal_strlit("b");
        reveal_strlit("c");
        reveal_strlit("d");
        reveal_strlit("e");
        reveal_strlit("f");
    }
    if d == 0 { "0" }
    else if d == 1 { "1" }
    else if d == 2 { "2" }
    else if d == 3 { "3" }
    else if d == 4 { "4" }
    else if d == 5 { "5" }
    else if d == 6 { "6" }
    else if d == 7 { "7" }
    else if d == 8 { "8" }
    else if d == 9 { "9" }
    else if d == 10 { "a" }
    else if d == 11 { "b" }
    else if d == 12 { "c" }
    else if d == 13 { "d" }
    else if d == 14 { "e" }
    else { "f" }
}

/// Appends the decimal notation of `n`.
pub fn push_dec(s: &mut String, n: u64)
    ensures
        final(s)@ == old(s)@ + dec(n as nat),
    decreases n,
{
    if n >= 10 {
        push_dec(s, n / 10);
    }
    s.append(digit_str(n % 10));
    proof {
        if n >= 10 {
            assert(dec(n as nat) == dec((n / 10) as nat).push(digit_char((n % 10) as nat)));
        }
    }
    assert(final(s)@ =~= old(s)@ + dec(n as nat)) by {
        if n < 10 {
            assert(dec(n as nat) == seq![digit_char(n as nat)]);
        }
    }
}

/// Appends the decimal notation of a signed number.
pub fn push_int(s: &mut String, n: i64)
    ensures
        final(s)@ == old(s)@ + dec_int(n as int),
{
    if n < 0 {
        proof {
            reveal_strlit("-");
        }
        s.append("-");
        let m: u64 = if n == i64::MIN { 9223372036854775808u64 } else { (-n) as u64 };
        push_dec(s, m);
        assert(final(s)@ =~= old(s)@ + dec_int(n as int));
    } else {
        push_dec(s, n as u64);
    }
}

/// Appends the lowest `width` hexadecimal digits of `n`, zero-padded.
pub fn push_hex_pad(s: &mut String, n: u64, width: u64)
    ensures
        final(s)@ == old(s)@ + hex_pad(n as nat, width as nat),
    decreases width,
{
    if width > 0 {
        push_hex_pad(s, n / 16, width - 1);
        s.append(digit_str(n % 16));
        assert(final(s)@ =~= old(s)@ + hex_pad(n as nat, width as nat));
    } else {
        assert(final(s)@ =~= old(s)@ + hex_pad(n as nat, width as nat));
    }
}

/// A new `String` holding `t`.
pub fn string_of(t: &str) -> (r: String)
    ensures
        r@ == t@,
{
    String::from_str(t)
}

/// Appends a piece of text.
pub fn push_str(s: &mut String, t: &str)
    ensures
        final(s)@ == old(s)@ + t@,
{
    s.append(t);
}

} // verus!
