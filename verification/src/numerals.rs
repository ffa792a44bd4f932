//! Textual numerals used by the wire formats: fixed-width lowercase
//! hexadecimal fields and decimal rendering, with parsing lemmas.

use vstd::prelude::*;

use crate::text::push_char;

verus! {

/// The lowercase hexadecimal digit for a value below 16.
pub open spec fn hex_digit_char(d: nat) -> char {
    if d == 0 {
        '0'
    } else if d == 1 {
        '1'
    } else if d == 2 {
        '2'
    } else if d == 3 {
        '3'
    } else if d == 4 {
        '4'
    } else if d == 5 {
        '5'
    } else if d == 6 {
        '6'
    } else if d == 7 {
        '7'
    } else if d == 8 {
        '8'
    } else if d == 9 {
        '9'
    } else if d == 10 {
        'a'
    } else if d == 11 {
        'b'
    } else if d == 12 {
        'c'
    } else if d == 13 {
        'd'
    } else if d == 14 {
        'e'
    } else {
        'f'
    }
}

pub open spec fn is_hex_digit_char(c: char) -> bool {
    c == '0' || c == '1' || c == '2' || c == '3' || c == '4' || c == '5' || c == '6' || c == '7'
        || c == '8' || c == '9' || c == 'a' || c == 'b' || c == 'c' || c == 'd' || c == 'e'
        || c == 'f'
}

/// The value of a lowercase hexadecimal digit; zero on other characters.
pub open spec fn hex_digit_val(c: char) -> nat {
    if c == '1' {
        1
    } else if c == '2' {
        2
    } else if c == '3' {
        3
    } else if c == '4' {
        4
    } else if c == '5' {
        5
    } else if c == '6' {
        6
    } else if c == '7' {
        7
    } else if c == '8' {
        8
    } else if c == '9' {
        9
    } else if c == 'a' {
        10
    } else if c == 'b' {
        11
    } else if c == 'c' {
        12
    } else if c == 'd' {
        13
    } else if c == 'e' {
        14
    } else if c == 'f' {
        15
    } else {
        0
    }
}

pub proof fn lemma_hex_digit_round_trip(d: nat)
    requires
        d < 16,
    ensures
        is_hex_digit_char(hex_digit_char(d)),
        hex_digit_val(hex_digit_char(d)) == d,
{
}

pub open spec fn pow16(k: nat) -> nat
    decreases k,
{
    if k == 0 {
        1
    } else {
        16 * pow16((k - 1) as nat)
    }
}

/// `n` written as exactly `k` lowercase hexadecimal digits, most significant
/// first; the digits of `n % pow16(k)` if `n` does not fit.
pub open spec fn hex_seq(n: nat, k: nat) -> Seq<char>
    decreases k,
{
    if k == 0 {
        Seq::empty()
    } else {
        hex_seq(n / 16, (k - 1) as nat) + seq![hex_digit_char(n % 16)]
    }
}

/// Left fold of hexadecimal digits onto an accumulator; `None` as soon as a
/// character is not a lowercase hexadecimal digit.
pub open spec fn parse_hex_acc(s: Seq<char>, acc: nat) -> Option<nat>
    decreases s.len(),
{
    if s.len() == 0 {
        Some(acc)
    } else if is_hex_digit_char(s[0]) {
        parse_hex_acc(s.subrange(1, s.len() as int), acc * 16 + hex_digit_val(s[0]))
    } else {
        None
    }
}

pub open spec fn parse_hex(s: Seq<char>) -> Option<nat> {
    parse_hex_acc(s, 0)
}

pub proof fn lemma_hex_seq_len(n: nat, k: nat)
    ensures
        hex_seq(n, k).len() == k,
    decreases k,
{
    if k > 0 {
        lemma_hex_seq_len(n / 16, (k - 1) as nat);
    }
}

/// Parsing distributes over concatenation: the left part is folded first and
/// its result feeds the right part.
pub proof fn lemma_parse_hex_concat(a: Seq<char>, b: Seq<char>, acc: nat)
    ensures
        parse_hex_acc(a + b, acc) == match parse_hex_acc(a, acc) {
            Some(m) => parse_hex_acc(b, m),
            None => None,
        },
    decreases a.len(),
{
    if a.len() == 0 {
        assert(a + b =~= b);
    } else {
        assert((a + b)[0] == a[0]);
        if is_hex_digit_char(a[0]) {
            assert((a + b).subrange(1, (a + b).len() as int) =~= a.subrange(1, a.len() as int)
                + b);
            lemma_parse_hex_concat(a.subrange(1, a.len() as int), b, acc * 16 + hex_digit_val(
                a[0],
            ));
        }
    }
}

proof fn lemma_div16_bound(n: nat, m: nat)
    requires
        n < 16 * m,
        1 <= m,
    ensures
        n / 16 < m,
{
    assert(n / 16 < m) by (nonlinear_arith)
        requires
            n < 16 * m,
            1 <= m,
    ;
}

/// A `k`-digit hexadecimal field parses back to the number it was written
/// from.
pub proof fn lemma_hex_seq_parse(n: nat, k: nat, acc: nat)
    requires
        n < pow16(k),
    ensures
        parse_hex_acc(hex_seq(n, k), acc) == Some(acc * pow16(k) + n),
    decreases k,
{
    if k == 0 {
        assert(n == 0);
    } else {
        let km1 = (k - 1) as nat;
        lemma_div16_bound(n, pow16(km1));
        lemma_hex_seq_parse(n / 16, km1, acc);
        let d = hex_digit_char(n % 16);
        lemma_hex_digit_round_trip(n % 16);
        lemma_parse_hex_concat(hex_seq(n / 16, km1), seq![d], acc);
        let m = acc * pow16(km1) + n / 16;
        assert(parse_hex_acc(seq![d], m) == Some(m * 16 + hex_digit_val(d))) by {
            reveal_with_fuel(parse_hex_acc, 3);
            assert(seq![d].subrange(1, 1) =~= Seq::<char>::empty());
            assert(seq![d][0] == d);
        }
        assert(m * 16 + n % 16 == acc * pow16(k) + n) by (nonlinear_arith)
            requires
                m == acc * pow16(km1) + n / 16,
                pow16(k) == 16 * pow16(km1),
    ;
    }
}

pub proof fn lemma_pow16_pos(k: nat)
    ensures
        pow16(k) >= 1,
    decreases k,
{
    if k > 0 {
        lemma_pow16_pos((k - 1) as nat);
    }
}

pub proof fn lemma_pow16_le(a: nat, b: nat)
    requires
        a <= b,
    ensures
        pow16(a) <= pow16(b),
    decreases b,
{
    if a < b {
        lemma_pow16_le(a, (b - 1) as nat);
        lemma_pow16_pos((b - 1) as nat);
    }
}

pub proof fn lemma_pow16_16()
    ensures
        pow16(16) == 0x1_0000_0000_0000_0000,
{
    reveal_with_fuel(pow16, 17);
}

fn hex_digit_exec(d: u8) -> (c: char)
    requires
        d < 16,
    ensures
        c == hex_digit_char(d as nat),
{
    if d == 0 {
        '0'
    } else if d == 1 {
        '1'
    } else if d == 2 {
        '2'
    } else if d == 3 {
        '3'
    } else if d == 4 {
        '4'
    } else if d == 5 {
        '5'
    } else if d == 6 {
        '6'
    } else if d == 7 {
        '7'
    } else if d == 8 {
        '8'
    } else if d == 9 {
        '9'
    } else if d == 10 {
        'a'
    } else if d == 11 {
        'b'
    } else if d == 12 {
        'c'
    } else if d == 13 {
        'd'
    } else if d == 14 {
        'e'
    } else {
        'f'
    }
}

/// The value of one character as a lowercase hexadecimal digit.
pub fn hex_digit_value(c: char) -> (r: Option<u8>)
    ensures
        match r {
            Some(v) => is_hex_digit_char(c) && v as nat == hex_digit_val(c) && v < 16,
            None => !is_hex_digit_char(c),
        },
{
    match c {
        '0' => Some(0),
        '1' => Some(1),
        '2' => Some(2),
        '3' => Some(3),
        '4' => Some(4),
        '5' => Some(5),
        '6' => Some(6),
        '7' => Some(7),
        '8' => Some(8),
        '9' => Some(9),
        'a' => Some(10),
        'b' => Some(11),
        'c' => Some(12),
        'd' => Some(13),
        'e' => Some(14),
        'f' => Some(15),
        _ => None,
    }
}

fn push_hex_rec(s: &mut String, n: u64, k: u8)
    ensures
        final(s)@ == old(s)@ + hex_seq(n as nat, k as nat),
    decreases k,
{
    if k == 0 {
        assert(old(s)@ + hex_seq(n as nat, 0) =~= old(s)@);
    } else {
        push_hex_rec(s, n / 16, k - 1);
        let d: u8 = (n % 16) as u8;
        push_char(s, hex_digit_exec(d));
        assert(old(s)@ + hex_seq(n as nat, k as nat) =~= (old(s)@ + hex_seq(
            n as nat / 16,
            (k - 1) as nat,
        )).push(hex_digit_char(n as nat % 16)));
    }
}

/// Appends `n` as a fixed field of 16 lowercase hexadecimal digits.
pub fn push_hex16(s: &mut String, n: u64)
    ensures
        final(s)@ == old(s)@ + hex_seq(n as nat, 16),
{
    push_hex_rec(s, n, 16);
}

/// Appends `n` as a fixed field of two lowercase hexadecimal digits.
pub fn push_hex2(s: &mut String, n: u8)
    ensures
        final(s)@ == old(s)@ + hex_seq(n as nat, 2),
{
    push_hex_rec(s, n as u64, 2);
}

/// The decimal digit for a value below 10.
pub open spec fn dec_digit_char(d: nat) -> char {
    if d == 0 {
        '0'
    } else if d == 1 {
        '1'
    } else if d == 2 {
        '2'
    } else if d == 3 {
        '3'
    } else if d == 4 {
        '4'
    } else if d == 5 {
        '5'
    } else if d == 6 {
        '6'
    } else if d == 7 {
        '7'
    } else if d == 8 {
        '8'
    } else {
        '9'
    }
}

/// `n` in ordinary decimal notation, without leading zeros.
pub open spec fn dec_seq(n: nat) -> Seq<char>
    decreases n,
{
    if n < 10 {
        seq![dec_digit_char(n)]
    } else {
        dec_seq(n / 10) + seq![dec_digit_char(n % 10)]
    }
}

pub proof fn lemma_dec_seq_len(n: nat)
    ensures
        dec_seq(n).len() >= 1,
    decreases n,
{
    if n >= 10 {
        lemma_dec_seq_len(n / 10);
    }
}

/// Decimal notation is injective: distinct numbers are written as distinct
/// digit sequences.
pub proof fn lemma_dec_seq_injective(a: nat, b: nat)
    requires
        dec_seq(a) == dec_seq(b),
    ensures
        a == b,
    decreases a,
{
    if a < 10 && b < 10 {
        assert(dec_seq(a)[0] == dec_digit_char(a));
        assert(dec_seq(b)[0] == dec_digit_char(b));
    } else if a < 10 {
        lemma_dec_seq_len(b / 10);
        assert(dec_seq(b).len() >= 2);
    } else if b < 10 {
        lemma_dec_seq_len(a / 10);
        assert(dec_seq(a).len() >= 2);
    } else {
        lemma_dec_seq_len(a / 10);
        lemma_dec_seq_len(b / 10);
        assert(dec_seq(a).last() == dec_digit_char(a % 10));
        assert(dec_seq(b).last() == dec_digit_char(b % 10));
        assert(a % 10 == b % 10);
        assert(dec_seq(a).drop_last() =~= dec_seq(a / 10));
        assert(dec_seq(b).drop_last() =~= dec_seq(b / 10));
        lemma_dec_seq_injective(a / 10, b / 10);
    }
}

fn dec_digit_exec(d: u8) -> (c: char)
    requires
        d < 10,
    ensures
        c == dec_digit_char(d as nat),
{
    if d == 0 {
        '0'
    } else if d == 1 {
        '1'
    } else if d == 2 {
        '2'
    } else if d == 3 {
        '3'
    } else if d == 4 {
        '4'
    } else if d == 5 {
        '5'
    } else if d == 6 {
        '6'
    } else if d == 7 {
        '7'
    } else if d == 8 {
        '8'
    } else {
        '9'
    }
}

/// Appends `n` in decimal notation.
pub fn push_dec(s: &mut String, n: u64)
    ensures
        final(s)@ == old(s)@ + dec_seq(n as nat),
    decreases n,
{
    if n < 10 {
        push_char(s, dec_digit_exec(n as u8));
        assert(old(s)@ + dec_seq(n as nat) =~= old(s)@.push(dec_digit_char(n as nat)));
    } else {
        push_dec(s, n / 10);
        push_char(s, dec_digit_exec((n % 10) as u8));
        assert(old(s)@ + dec_seq(n as nat) =~= (old(s)@ + dec_seq(n as nat / 10)).push(
            dec_digit_char(n as nat % 10),
        ));
    }
}

} // verus!
