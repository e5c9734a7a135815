//! The text of report lines: decimal and hexadecimal digits of integers,
//! a sign, padding with zeros to a width, and the sink that takes the
//! finished lines.

use vstd::arithmetic::div_mod::{
    lemma_div_decreases, lemma_div_is_ordered_by_denominator, lemma_fundamental_div_mod,
    lemma_mod_bound, lemma_small_mod,
};
use vstd::arithmetic::power2::{lemma2_to64, lemma_pow2_unfold, pow2};
use vstd::prelude::*;
use vstd::string::*;

verus! {

/// The character that stands for the digit `d`, in lower case.
pub open spec fn digit_char(d: nat) -> char
    recommends
        d < 16,
{
    "0123456789abcdef"@[d as int]
}

/// The digits of `n` in base `radix`, most significant first, without
/// leading zeros; zero has the one digit `0`.
pub open spec fn digits(n: nat, radix: nat) -> Seq<char>
    recommends
        2 <= radix <= 16,
    decreases n,
{
    if 2 <= radix <= n {
        proof {
            lemma_div_decreases(n as int, radix as int);
        }
        digits(n / radix, radix).push(digit_char(n % radix))
    } else {
        seq![digit_char(n)]
    }
}

/// The decimal digits of `n`.
pub open spec fn decimal(n: nat) -> Seq<char> {
    digits(n, 10)
}

/// The hexadecimal digits of `n`, in lower case.
pub open spec fn hex(n: nat) -> Seq<char> {
    digits(n, 16)
}

/// The decimal text of `n`, with a minus sign before the digits of a
/// negative number.
pub open spec fn signed_decimal(n: int) -> Seq<char> {
    if n < 0 {
        seq!['-'] + decimal((-n) as nat)
    } else {
        decimal(n as nat)
    }
}

/// `body` with as many zeros before it as bring it to `width` characters;
/// `body` itself where it is that long already.
pub open spec fn zero_padded(body: Seq<char>, width: nat) -> Seq<char> {
    if body.len() >= width {
        body
    } else {
        Seq::new((width - body.len()) as nat, |i: int| '0') + body
    }
}

/// The digit `d` as a text of one character.
fn digit_str(d: u64) -> (text: &'static str)
    requires
        d < 16,
    ensures
        text@ == seq![digit_char(d as nat)],
{
    proof {
        reveal_strlit("0123456789abcdef");
        reveal_strlit("0");
        reveal_strlit("1");
        reveal_strlit("2");
        reveal_strlit("3");
        reveal_strlit("4");
        reveal_strlit("5");
        reveal_strlit("6");
        reveal_strlit("7");
        reveal_strlit("8");
        reveal_strlit("9");
        reveal_strlit("a");
        reveal_strlit("b");
        reveal_strlit("c");
        reveal_strlit("d");
        reveal_strlit("e");
        reveal_strlit("f");
    }
    match d {
        0 => "0",
        1 => "1",
        2 => "2",
        3 => "3",
        4 => "4",
        5 => "5",
        6 => "6",
        7 => "7",
        8 => "8",
        9 => "9",
        10 => "a",
        11 => "b",
        12 => "c",
        13 => "d",
        14 => "e",
        _ => "f",
    }
}

/// Appends the digits of `n` in base `radix` to `out`.
fn push_digits(out: &mut String, n: u64, radix: u64)
    requires
        2 <= radix <= 16,
    ensures
        final(out)@ == old(out)@ + digits(n as nat, radix as nat),
    decreases n,
{
    proof {
        lemma_mod_bound(n as int, radix as int);
    }
    if n >= radix {
        proof {
            lemma_div_decreases(n as int, radix as int);
        }
        push_digits(out, n / radix, radix);
    }
    out.append(digit_str(n % radix));
    proof {
        let low = seq![digit_char((n % radix) as nat)];
        if n >= radix {
            let high = digits((n / radix) as nat, radix as nat);
            assert((old(out)@ + high) + low =~= old(out)@ + high.push(low[0]));
        } else {
            lemma_small_mod(n as nat, radix as nat);
        }
    }
}

/// Counts the digits of `n` in base `radix`.
fn digits_len(n: u64, radix: u64) -> (len: usize)
    requires
        2 <= radix <= 16,
    ensures
        len == digits(n as nat, radix as nat).len(),
        1 <= len <= 64,
{
    let mut rest: u64 = n;
    let mut len: usize = 1;
    proof {
        lemma2_to64();
    }
    while rest >= radix
        invariant
            2 <= radix <= 16,
            1 <= len <= 64,
            rest < pow2((65 - len) as nat),
            len + digits(rest as nat, radix as nat).len() == digits(n as nat, radix as nat).len()
                + 1,
        decreases rest,
    {
        proof {
            lemma2_to64();
            lemma_pow2_unfold((65 - len) as nat);
            lemma_div_decreases(rest as int, radix as int);
            lemma_div_is_ordered_by_denominator(rest as int, 2, radix as int);
        }
        rest = rest / radix;
        len = len + 1;
    }
    len
}

/// Appends `count` zeros to `out`.
fn push_zeros(out: &mut String, count: usize)
    ensures
        final(out)@ == old(out)@ + Seq::new(count as nat, |i: int| '0'),
{
    let mut done: usize = 0;
    while done < count
        invariant
            done <= count,
            out@ == old(out)@ + Seq::new(done as nat, |i: int| '0'),
        decreases count - done,
    {
        proof {
            reveal_strlit("0");
        }
        out.append("0");
        done = done + 1;
    }
}

/// Appends `line` to the report `out`.
pub fn emit(out: &mut Vec<String>, line: String)
    ensures
        final(out).deep_view() == old(out).deep_view().push(line@),
{
    out.push(line);
    assert(out.deep_view() =~= old(out).deep_view().push(line@));
}

/// Appends the decimal digits of `n` to `out`.
pub fn push_decimal(out: &mut String, n: u64)
    ensures
        final(out)@ == old(out)@ + decimal(n as nat),
{
    push_digits(out, n, 10);
}

/// Appends the hexadecimal digits of `n`, in lower case, to `out`.
pub fn push_hex(out: &mut String, n: u64)
    ensures
        final(out)@ == old(out)@ + hex(n as nat),
{
    push_digits(out, n, 16);
}

/// Appends the decimal text of `n` to `out`, a minus sign first where `n`
/// is negative.
pub fn push_signed(out: &mut String, n: i64)
    ensures
        final(out)@ == old(out)@ + signed_decimal(n as int),
{
    if n < 0 {
        proof {
            reveal_strlit("-");
        }
        out.append("-");
        let magnitude: u64 = (-(n + 1)) as u64 + 1;
        push_digits(out, magnitude, 10);
    } else {
        push_digits(out, n as u64, 10);
    }
}

/// Appends the decimal digits of `n` to `out`, after as many zeros as
/// bring them to `width` characters.
pub fn push_decimal_padded(out: &mut String, n: u64, width: usize)
    ensures
        final(out)@ == old(out)@ + zero_padded(decimal(n as nat), width as nat),
{
    let len = digits_len(n, 10);
    if len < width {
        push_zeros(out, width - len);
    }
    push_digits(out, n, 10);
}

/// Appends the hexadecimal digits of `n` to `out`, after as many zeros as
/// bring them to `width` characters.
pub fn push_hex_padded(out: &mut String, n: u64, width: usize)
    ensures
        final(out)@ == old(out)@ + zero_padded(hex(n as nat), width as nat),
{
    let len = digits_len(n, 16);
    if len < width {
        push_zeros(out, width - len);
    }
    push_digits(out, n, 16);
}

/// A number has at least one digit, and every one of its characters is a
/// digit of the base.
pub proof fn lemma_digits_are_digits(n: nat, radix: nat)
    requires
        2 <= radix <= 16,
    ensures
        digits(n, radix).len() >= 1,
        n >= radix ==> digits(n, radix).len() >= 2,
        forall|i: int|
            0 <= i < digits(n, radix).len() ==> exists|d: nat|
                d < radix && #[trigger] digits(n, radix)[i] == digit_char(d),
    decreases n,
{
    if n >= radix {
        lemma_div_decreases(n as int, radix as int);
        lemma_mod_bound(n as int, radix as int);
        lemma_digits_are_digits(n / radix, radix);
        let high = digits(n / radix, radix);
        assert forall|i: int| 0 <= i < digits(n, radix).len() implies exists|d: nat|
            d < radix && #[trigger] digits(n, radix)[i] == digit_char(d) by {
            if i < high.len() {
                assert(digits(n, radix)[i] == high[i]);
            } else {
                assert(digits(n, radix)[i] == digit_char(n % radix));
            }
        }
    } else {
        assert(digits(n, radix)[0] == digit_char(n));
    }
}

/// Different numbers have different digits: the text tells the number.
pub proof fn lemma_digits_injective(a: nat, b: nat, radix: nat)
    requires
        2 <= radix <= 16,
        digits(a, radix) == digits(b, radix),
    ensures
        a == b,
    decreases a,
{
    reveal_strlit("0123456789abcdef");
    lemma_digits_are_digits(a, radix);
    lemma_digits_are_digits(b, radix);
    if a >= radix && b >= radix {
        lemma_div_decreases(a as int, radix as int);
        lemma_mod_bound(a as int, radix as int);
        lemma_mod_bound(b as int, radix as int);
        let high_a = digits(a / radix, radix);
        let high_b = digits(b / radix, radix);
        assert(digits(a, radix).drop_last() =~= high_a);
        assert(digits(b, radix).drop_last() =~= high_b);
        assert(digits(a, radix).last() == digit_char(a % radix));
        assert(digits(b, radix).last() == digit_char(b % radix));
        lemma_digits_injective(a / radix, b / radix, radix);
        lemma_fundamental_div_mod(a as int, radix as int);
        lemma_fundamental_div_mod(b as int, radix as int);
    } else if a < radix && b < radix {
        assert(digits(a, radix)[0] == digit_char(a));
        assert(digits(b, radix)[0] == digit_char(b));
    }
}

/// Padding brings a text to the width asked for and never shortens it; the
/// text itself stands at the end.
pub proof fn lemma_zero_padded(body: Seq<char>, width: nat)
    ensures
        zero_padded(body, width).len() == (if body.len() >= width {
            body.len()
        } else {
            width
        }),
        zero_padded(body, width).subrange(
            zero_padded(body, width).len() - body.len(),
            zero_padded(body, width).len() as int,
        ) == body,
        forall|i: int|
            0 <= i < zero_padded(body, width).len() - body.len() ==> zero_padded(body, width)[i]
                == '0',
{
    let padded = zero_padded(body, width);
    assert(padded.subrange(padded.len() - body.len(), padded.len() as int) =~= body);
}

/// A byte padded to three decimal places has exactly three characters, and
/// a 16-bit number padded to four hexadecimal places has exactly four.
pub proof fn lemma_fixed_width(byte: u8, word: u16)
    ensures
        zero_padded(decimal(byte as nat), 3).len() == 3,
        zero_padded(hex(word as nat), 4).len() == 4,
{
    reveal_with_fuel(digits, 5);
    lemma_zero_padded(decimal(byte as nat), 3);
    lemma_zero_padded(hex(word as nat), 4);
    assert(decimal(byte as nat).len() <= 3);
    let w = word as nat;
    assert(w / 16 / 16 / 16 < 16);
    assert(hex(w).len() <= 4);
}

} // verus!
