//! Decimal and hexadecimal numbers as text.
use vstd::prelude::*;

verus! {

/// The character of a digit below 16, lower case.
pub open spec fn digit_char(d: nat) -> char {
    if d < 10 {
        ((d + 48) as u8) as char
    } else {
        ((d + 87) as u8) as char
    }
}

/// `n` in decimal, without leading zeros.
pub open spec fn decimal(n: nat) -> Seq<char>
    decreases n,
{
    if n < 10 {
        seq![digit_char(n)]
    } else {
        decimal(n / 10) + seq![digit_char(n % 10)]
    }
}

/// The two lower-case hexadecimal digits of a byte.
pub open spec fn hex2(b: nat) -> Seq<char> {
    seq![digit_char((b / 16) % 16), digit_char(b % 16)]
}

/// The one-character string of digit `d`.
fn digit_str(d: u64) -> (r: &'static str)
    requires
        d < 16,
    ensures
        r@ == seq![digit_char(d as nat)],
{
    proof {
        reveal_strlit("0");
        reveal_strlit("1");
        reveal_strlit("2");
        reveal_strlit("3");
        reveal_strlit("4");
        reveal_strlit("5");
        reveal_strlit("6");
        reveal_strlit("7");
        reveal_strlit("8");
        reveal_strlit("9");
        reveal_strlit("a");
        reveal_strlit("b");
        reveal_strlit("c");
        reveal_strlit("d");
        reveal_strlit("e");
        reveal_strlit("f");
    }
    match d {
        0 => "0",
        1 => "1",
        2 => "2",
        3 => "3",
        4 => "4",
        5 => "5",
        6 => "6",
        7 => "7",
        8 => "8",
        9 => "9",
        10 => "a",
        11 => "b",
        12 => "c",
        13 => "d",
        14 => "e",
        _ => "f",
    }
}

/// Appends `n` in decimal to `out`.
pub fn push_decimal(out: &mut String, n: u64)
    ensures
        final(out)@ == old(out)@ + decimal(n as nat),
    decreases n,
{
    if n >= 10 {
        push_decimal(out, n / 10);
    }
    out.append(digit_str(n % 10));
    proof {
        if n >= 10 {
            assert(old(out)@ + decimal((n / 10) as nat) + seq![digit_char((n % 10) as nat)]
                == old(out)@ + (decimal((n / 10) as nat) + seq![digit_char((n % 10) as nat)]));
        }
    }
}

/// Appends the two lower-case hexadecimal digits of `b` to `out`.
pub fn push_hex2(out: &mut String, b: u8)
    ensures
        final(out)@ == old(out)@ + hex2(b as nat),
{
    out.append(digit_str((b / 16) as u64));
    out.append(digit_str((b % 16) as u64));
    proof {
        assert(((b / 16) as nat) % 16 == (b / 16) as nat);
        assert(old(out)@ + seq![digit_char(((b / 16) % 16) as nat)] + seq![digit_char((b % 16) as nat)]
            == old(out)@ + hex2(b as nat));
    }
}

/// `s` without the `+` that may lead it.
pub open spec fn unsigned_digits(s: Seq<u8>) -> Seq<u8> {
    if s.len() > 0 && s[0] == 43 {
        s.drop_first()
    } else {
        s
    }
}

/// Whether every byte of `d` is a decimal digit.
pub open spec fn all_digits(d: Seq<u8>) -> bool {
    forall|i: int| 0 <= i < d.len() ==> #[trigger] d[i] >= 48 && d[i] <= 57
}

/// Whether `s` is a number in the form that `str::parse` takes for unsigned
/// integers: an optional `+` and at least one decimal digit.
pub open spec fn is_decimal(s: Seq<u8>) -> bool {
    unsigned_digits(s).len() > 0 && all_digits(unsigned_digits(s))
}

/// The value of the decimal digits `d`.
pub open spec fn digits_value(d: Seq<u8>) -> nat
    decreases d.len(),
{
    if d.len() == 0 {
        0
    } else {
        digits_value(d.drop_last()) * 10 + (d.last() - 48) as nat
    }
}

/// The value of a number that `is_decimal` accepts.
pub open spec fn decimal_value(s: Seq<u8>) -> nat {
    digits_value(unsigned_digits(s))
}

/// What `str::parse` gives for an unsigned type whose largest value is `max`.
pub open spec fn parse_unsigned(s: Seq<u8>, max: nat) -> Option<nat> {
    if is_decimal(s) && decimal_value(s) <= max {
        Some(decimal_value(s))
    } else {
        None
    }
}

/// Parses `s` as an unsigned number no larger than `max`, as `str::parse`
/// does for unsigned integers.
pub fn parse_dec(s: &[u8], max: u64) -> (r: Option<u64>)
    ensures
        r == (match parse_unsigned(s@, max as nat) {
            Some(v) => Some(v as u64),
            None => None,
        }),
{
    let mut i: usize = 0;
    if s.len() > 0 && s[0] == 43 {
        i = 1;
    }
    let ghost d = s@.subrange(i as int, s@.len() as int);
    proof {
        if i == 1 {
            assert(d == s@.drop_first());
        } else {
            assert(d == s@);
        }
    }
    if i == s.len() {
        return None;
    }
    let start = i;
    let mut v: u64 = 0;
    while i < s.len()
        invariant
            start <= i <= s@.len(),
            start < s@.len(),
            d == s@.subrange(start as int, s@.len() as int),
            d == unsigned_digits(s@),
            forall|j: int| start <= j < i ==> #[trigger] s@[j] >= 48 && s@[j] <= 57,
            v == digits_value(s@.subrange(start as int, i as int)),
            v <= max,
        decreases s.len() - i,
    {
        let c = s[i];
        if c < 48 || c > 57 {
            proof {
                assert(d[i - start] == c);
                lemma_not_decimal(s@, d, (i - start) as int);
            }
            return None;
        }
        let digit = (c - 48) as u64;
        proof {
            let p = s@.subrange(start as int, i + 1);
            assert(p.drop_last() == s@.subrange(start as int, i as int));
            assert(p.last() == c);
        }
        if digit > max || v > (max - digit) / 10 {
            proof {
                assert(v * 10 + digit > max) by (nonlinear_arith)
                    requires digit > max || v > (max - digit) / 10, v >= 0;
                if all_digits(d) {
                    lemma_digits_monotone(d, (i + 1 - start) as int);
                }
                assert(s@.subrange(start as int, s@.len() as int).subrange(0, i + 1 - start)
                    == s@.subrange(start as int, i + 1));
                assert(decimal_value(s@) == digits_value(d));
            }
            return None;
        }
        v = v * 10 + digit;
        i = i + 1;
    }
    proof {
        assert(s@.subrange(start as int, i as int) == d);
        assert(decimal_value(s@) == digits_value(d));
        assert(is_decimal(s@));
    }
    Some(v)
}

/// A longer run of digits is worth at least as much as its prefix.
proof fn lemma_digits_monotone(d: Seq<u8>, k: int)
    requires
        0 <= k <= d.len(),
        all_digits(d),
    ensures
        digits_value(d.subrange(0, k)) <= digits_value(d),
    decreases d.len(),
{
    if k < d.len() {
        let p = d.drop_last();
        assert(p.subrange(0, k) == d.subrange(0, k));
        lemma_digits_monotone(p, k);
        assert(digits_value(p) <= digits_value(p) * 10);
    } else {
        assert(d.subrange(0, k) == d);
    }
}

} // verus!
verus! {

/// A string with a character other than a digit after its optional `+` is no
/// number.
proof fn lemma_not_decimal(s: Seq<u8>, d: Seq<u8>, k: int)
    requires
        d == unsigned_digits(s),
        0 <= k < d.len(),
        d[k] < 48 || d[k] > 57,
    ensures
        !is_decimal(s),
{
    assert(!all_digits(d)) by {
        if all_digits(d) {
            assert(d[k] >= 48 && d[k] <= 57);
        }
    }
}

} // verus!

verus! {

/// The first `end` bytes of `s`.
pub fn prefix(s: &[u8], end: usize) -> (r: Vec<u8>)
    requires
        end <= s@.len(),
    ensures
        r@ == s@.subrange(0, end as int),
{
    let mut r: Vec<u8> = Vec::new();
    let mut i: usize = 0;
    while i < end
        invariant
            i <= end <= s@.len(),
            r@ == s@.subrange(0, i as int),
        decreases end - i,
    {
        r.push(s[i]);
        i = i + 1;
        assert(r@ == s@.subrange(0, i as int));
    }
    r
}

} // verus!
