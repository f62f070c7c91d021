//! Integers written out as Go reads them: decimal, octal and hexadecimal digits.

use vstd::prelude::*;

verus! {

/// The character for one digit below sixteen, in lower case.
pub open spec fn digit_char(d: nat) -> char {
    if d == 0 {
        '0'
    } else if d == 1 {
        '1'
    } else if d == 2 {
        '2'
    } else if d == 3 {
        '3'
    } else if d == 4 {
        '4'
    } else if d == 5 {
        '5'
    } else if d == 6 {
        '6'
    } else if d == 7 {
        '7'
    } else if d == 8 {
        '8'
    } else if d == 9 {
        '9'
    } else if d == 10 {
        'a'
    } else if d == 11 {
        'b'
    } else if d == 12 {
        'c'
    } else if d == 13 {
        'd'
    } else if d == 14 {
        'e'
    } else {
        'f'
    }
}

/// The digits of `n` in the given base, most significant first, without leading zeros.
pub open spec fn digits(n: nat, base: nat) -> Seq<char>
    decreases n,
    via digits_decreases
{
    if base < 2 || n < base {
        seq![digit_char(n)]
    } else {
        digits(n / base, base).push(digit_char(n % base))
    }
}

#[via_fn]
proof fn digits_decreases(n: nat, base: nat) {
    if base >= 2 && n >= base {
        lemma_quotient_smaller(n, base);
    }
}

proof fn lemma_quotient_smaller(n: nat, base: nat)
    requires
        base >= 2,
        n >= base,
    ensures
        0 < n / base < n,
{
    assert(0 < n / base < n) by (nonlinear_arith)
        requires
            base >= 2,
            n >= base,
    ;
}

/// How far an integer is from zero.
pub open spec fn magnitude(v: int) -> nat {
    if v >= 0 {
        v as nat
    } else {
        (-v) as nat
    }
}

/// A text with a minus sign before it where it stands for the magnitude of a
/// negative number.
pub open spec fn with_sign(v: int, text: Seq<char>) -> Seq<char> {
    if v >= 0 {
        text
    } else {
        seq!['-'] + text
    }
}

/// A signed integer in decimal: a minus sign before the digits of a negative number.
pub open spec fn signed_decimal(v: int) -> Seq<char> {
    with_sign(v, digits(magnitude(v), 10))
}

fn digit_str(d: u64) -> (r: &'static str)
    requires
        d < 16,
    ensures
        r@ == seq![digit_char(d as nat)],
{
    proof {
        reveal_strlit("0");
        reveal_strlit("1");
        reveal_strlit("2");
        reveal_strlit("3");
        reveal_strlit("4");
        reveal_strlit("5");
        reveal_strlit("6");
        reveal_strlit("7");
        reveal_strlit("8");
        reveal_strlit("9");
        reveal_strlit("a");
        reveal_strlit("b");
        reveal_strlit("c");
        reveal_strlit("d");
        reveal_strlit("e");
        reveal_strlit("f");
    }
    let r = if d == 0 {
        "0"
    } else if d == 1 {
        "1"
    } else if d == 2 {
        "2"
    } else if d == 3 {
        "3"
    } else if d == 4 {
        "4"
    } else if d == 5 {
        "5"
    } else if d == 6 {
        "6"
    } else if d == 7 {
        "7"
    } else if d == 8 {
        "8"
    } else if d == 9 {
        "9"
    } else if d == 10 {
        "a"
    } else if d == 11 {
        "b"
    } else if d == 12 {
        "c"
    } else if d == 13 {
        "d"
    } else if d == 14 {
        "e"
    } else {
        "f"
    };
    assert(r@ =~= seq![digit_char(d as nat)]);
    r
}

/// Writes `n` in the given base.
pub fn render_digits(n: u64, base: u64) -> (r: String)
    requires
        2 <= base <= 16,
    ensures
        r@ == digits(n as nat, base as nat),
    decreases n,
{
    if n < base {
        digit_str(n).to_owned()
    } else {
        proof {
            lemma_quotient_smaller(n as nat, base as nat);
        }
        let mut s = render_digits(n / base, base);
        s.append(digit_str(n % base));
        s
    }
}

/// How far a signed integer is from zero. The least integer has no negative
/// of its own type, so the result is unsigned.
pub fn absolute(v: i64) -> (r: u64)
    ensures
        r == magnitude(v as int),
{
    if v >= 0 {
        v as u64
    } else {
        (-(v + 1)) as u64 + 1
    }
}

/// Puts a minus sign before the text of a magnitude where the number is negative.
pub fn signed(v: i64, text: String) -> (r: String)
    ensures
        r@ == with_sign(v as int, text@),
{
    if v >= 0 {
        text
    } else {
        let mut s = "-".to_owned();
        proof {
            reveal_strlit("-");
            assert("-"@ =~= seq!['-']);
        }
        s.append(text.as_str());
        s
    }
}

/// Writes a signed integer in decimal.
pub fn render_signed_decimal(v: i64) -> (r: String)
    ensures
        r@ == signed_decimal(v as int),
{
    signed(v, render_digits(absolute(v), 10))
}

/// The digit that a character stands for, and sixteen for a character that is
/// no digit.
pub open spec fn digit_value(c: char) -> nat {
    if c == '0' {
        0
    } else if c == '1' {
        1
    } else if c == '2' {
        2
    } else if c == '3' {
        3
    } else if c == '4' {
        4
    } else if c == '5' {
        5
    } else if c == '6' {
        6
    } else if c == '7' {
        7
    } else if c == '8' {
        8
    } else if c == '9' {
        9
    } else if c == 'a' {
        10
    } else if c == 'b' {
        11
    } else if c == 'c' {
        12
    } else if c == 'd' {
        13
    } else if c == 'e' {
        14
    } else if c == 'f' {
        15
    } else {
        16
    }
}

/// The number that a row of digits stands for in the given base.
pub open spec fn number_value(s: Seq<char>, base: nat) -> nat
    decreases s.len(),
{
    if s.len() == 0 {
        0
    } else {
        number_value(s.drop_last(), base) * base + digit_value(s.last())
    }
}

/// The number that Go reads from the text of an integer constant without a
/// sign: octal after `0o`, hexadecimal after `0x`, and decimal otherwise.
pub open spec fn go_unsigned_value(text: Seq<char>) -> nat {
    if text.len() >= 2 && text[0] == '0' && text[1] == 'o' {
        number_value(text.skip(2), 8)
    } else if text.len() >= 2 && text[0] == '0' && text[1] == 'x' {
        number_value(text.skip(2), 16)
    } else {
        number_value(text, 10)
    }
}

/// The integer that Go reads from the text of an integer constant: the sign
/// comes first, and what follows it is read as a constant without a sign.
pub open spec fn go_integer_value(text: Seq<char>) -> int {
    if text.len() >= 1 && text[0] == '-' {
        -(go_unsigned_value(text.skip(1)) as int)
    } else {
        go_unsigned_value(text) as int
    }
}

/// The digits written for a number are digits of the base, and read back they
/// give the number.
pub proof fn lemma_digits_round_trip(n: nat, base: nat)
    requires
        2 <= base <= 16,
    ensures
        number_value(digits(n, base), base) == n,
        digits(n, base).len() >= 1,
        forall|i: int|
            0 <= i < digits(n, base).len() ==> digit_value(#[trigger] digits(n, base)[i]) < base,
    decreases n,
{
    if n >= base {
        lemma_quotient_smaller(n, base);
        lemma_digits_round_trip(n / base, base);
        let head = digits(n / base, base);
        let d = digit_char(n % base);
        let all = head.push(d);
        assert(all.drop_last() =~= head);
        assert(all.last() == d);
        assert((n / base) * base + n % base == n) by (nonlinear_arith)
            requires
                base >= 2,
        ;
        assert(n % base < base) by (nonlinear_arith)
            requires
                base >= 2,
        ;
        assert forall|i: int| 0 <= i < all.len() implies digit_value(#[trigger] all[i]) < base by {
            if i < head.len() {
                assert(all[i] == head[i]);
            }
        }
    } else {
        let all = seq![digit_char(n)];
        assert(all.drop_last() =~= Seq::<char>::empty());
        assert(number_value(all.drop_last(), base) == 0);
    }
}

/// Go reads from the digits of a number, in decimal or behind the prefix of
/// their base, the number that was written. None of these texts begins with a
/// sign.
pub proof fn lemma_unsigned_round_trip(n: nat)
    ensures
        go_unsigned_value(digits(n, 10)) == n,
        go_unsigned_value("0o"@ + digits(n, 8)) == n,
        go_unsigned_value("0x"@ + digits(n, 16)) == n,
        digits(n, 10)[0] != '-',
        ("0o"@ + digits(n, 8))[0] != '-',
        ("0x"@ + digits(n, 16))[0] != '-',
{
    reveal_strlit("0o");
    reveal_strlit("0x");
    lemma_digits_round_trip(n, 10);
    let decimal = digits(n, 10);
    assert(digit_value(decimal[0]) < 10);
    if decimal.len() >= 2 {
        assert(digit_value(decimal[1]) < 10);
    }
    lemma_digits_round_trip(n, 8);
    let octal = "0o"@ + digits(n, 8);
    assert(octal.skip(2) =~= digits(n, 8));
    lemma_digits_round_trip(n, 16);
    let hexadecimal = "0x"@ + digits(n, 16);
    assert(hexadecimal.skip(2) =~= digits(n, 16));
}

/// Go reads from the text of a magnitude with the number's sign the number.
pub proof fn lemma_sign_round_trip(v: int, text: Seq<char>)
    requires
        text.len() >= 1,
        text[0] != '-',
        go_unsigned_value(text) == magnitude(v),
    ensures
        go_integer_value(with_sign(v, text)) == v,
{
    if v < 0 {
        let whole = seq!['-'] + text;
        assert(whole.skip(1) =~= text);
    }
}

/// Go reads from the decimal text of a signed integer the integer itself.
pub proof fn lemma_signed_decimal_round_trip(v: int)
    ensures
        go_integer_value(signed_decimal(v)) == v,
{
    lemma_unsigned_round_trip(magnitude(v));
    lemma_digits_round_trip(magnitude(v), 10);
    lemma_sign_round_trip(v, digits(magnitude(v), 10));
}

} // verus!
