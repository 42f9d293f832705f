use vstd::arithmetic::div_mod::{lemma_breakdown, lemma_small_mod};
use vstd::prelude::*;

verus! {

pub open spec fn digit_char(d: nat) -> char {
    if d == 0 {
        '0'
    } else if d == 1 {
        '1'
    } else if d == 2 {
        '2'
    } else if d == 3 {
        '3'
    } else if d == 4 {
        '4'
    } else if d == 5 {
        '5'
    } else if d == 6 {
        '6'
    } else if d == 7 {
        '7'
    } else if d == 8 {
        '8'
    } else {
        '9'
    }
}

/// The value of a decimal digit character, or `None` for any other character.
pub open spec fn digit_value(c: char) -> Option<nat> {
    if c == '0' {
        Some(0)
    } else if c == '1' {
        Some(1)
    } else if c == '2' {
        Some(2)
    } else if c == '3' {
        Some(3)
    } else if c == '4' {
        Some(4)
    } else if c == '5' {
        Some(5)
    } else if c == '6' {
        Some(6)
    } else if c == '7' {
        Some(7)
    } else if c == '8' {
        Some(8)
    } else if c == '9' {
        Some(9)
    } else {
        None
    }
}

pub open spec fn all_digits(s: Seq<char>) -> bool {
    forall|i: int| 0 <= i < s.len() ==> (#[trigger] digit_value(s[i])) is Some
}

/// The number that a string of decimal digits spells.
pub open spec fn digits_value(s: Seq<char>) -> nat
    decreases s.len(),
{
    if s.len() == 0 {
        0
    } else {
        digits_value(s.drop_last()) * 10 + digit_value(s.last()).unwrap_or(0)
    }
}

/// The last `width` decimal digits of `n`, zero-padded on the left.
pub open spec fn fixed_digits(n: nat, width: nat) -> Seq<char>
    decreases width,
{
    if width == 0 {
        Seq::empty()
    } else {
        fixed_digits(n / 10, (width - 1) as nat).push(digit_char(n % 10))
    }
}

pub open spec fn pow10(w: nat) -> nat
    decreases w,
{
    if w == 0 {
        1
    } else {
        10 * pow10((w - 1) as nat)
    }
}

pub proof fn lemma_pow10_positive(w: nat)
    ensures
        pow10(w) > 0,
    decreases w,
{
    if w > 0 {
        lemma_pow10_positive((w - 1) as nat);
    }
}

pub proof fn lemma_fixed_digits(n: nat, width: nat)
    ensures
        fixed_digits(n, width).len() == width,
        all_digits(fixed_digits(n, width)),
        digits_value(fixed_digits(n, width)) == n % pow10(width),
    decreases width,
{
    if width > 0 {
        let w1 = (width - 1) as nat;
        lemma_fixed_digits(n / 10, w1);
        lemma_pow10_positive(w1);
        let s = fixed_digits(n, width);
        assert(s.drop_last() == fixed_digits(n / 10, w1));
        assert(digit_value(digit_char(n % 10)) == Some((n % 10) as nat));
        lemma_breakdown(n as int, 10, pow10(w1) as int);
        assert(all_digits(s)) by {
            assert forall|i: int| 0 <= i < s.len() implies (#[trigger] digit_value(s[i])) is Some by {
                if i < w1 {
                    assert(s[i] == fixed_digits(n / 10, w1)[i]);
                }
            }
        }
    }
}

/// Twenty digits hold every `u64`, so they spell it back exactly.
pub proof fn lemma_fixed_digits_u64(n: u64)
    ensures
        fixed_digits(n as nat, 20).len() == 20,
        all_digits(fixed_digits(n as nat, 20)),
        digits_value(fixed_digits(n as nat, 20)) == n,
{
    lemma_fixed_digits(n as nat, 20);
    reveal_with_fuel(pow10, 21);
    assert(pow10(20) == 100000000000000000000nat);
    lemma_small_mod(n as nat, pow10(20));
}

/// A string of `width` digits is the fixed-width spelling of its value.
pub proof fn lemma_digits_round_trip(s: Seq<char>)
    requires
        all_digits(s),
    ensures
        fixed_digits(digits_value(s), s.len()) == s,
    decreases s.len(),
{
    if s.len() > 0 {
        let t = s.drop_last();
        assert(all_digits(t)) by {
            assert forall|i: int| 0 <= i < t.len() implies (#[trigger] digit_value(t[i])) is Some by {
                assert(t[i] == s[i]);
            }
        }
        lemma_digits_round_trip(t);
        let d = digit_value(s.last()).unwrap();
        assert(digit_value(s[s.len() - 1]) is Some);
        let v = digits_value(s);
        assert(v == digits_value(t) * 10 + d);
        assert(v / 10 == digits_value(t) && v % 10 == d) by (nonlinear_arith)
            requires
                v == digits_value(t) * 10 + d,
                d < 10,
        ;
        assert(digit_char(d) == s.last());
        assert(fixed_digits(v, s.len()) =~= t.push(s.last()));
    }
}

/// A longer string of digits spells at least what its prefix spells.
pub proof fn lemma_digits_value_prefix(s: Seq<char>, k: int)
    requires
        0 <= k <= s.len(),
    ensures
        digits_value(s.subrange(0, k)) <= digits_value(s),
    decreases s.len(),
{
    if k < s.len() {
        let t = s.drop_last();
        lemma_digits_value_prefix(t, k);
        assert(t.subrange(0, k) =~= s.subrange(0, k));
    } else {
        assert(s.subrange(0, k) =~= s);
    }
}

/// Reads the twenty characters of `s` from `from` as a decimal `u64`.
pub fn read_u64_digits(s: &str, from: usize) -> (r: Option<u64>)
    requires
        from + 20 <= s@.len(),
        from + 20 <= usize::MAX,
    ensures
        r matches Some(v) ==> all_digits(s@.subrange(from as int, from + 20)) && digits_value(
            s@.subrange(from as int, from + 20),
        ) == v,
        r is None ==> !(all_digits(s@.subrange(from as int, from + 20)) && digits_value(
            s@.subrange(from as int, from + 20),
        ) <= u64::MAX),
{
    let ghost field = s@.subrange(from as int, from + 20);
    let mut value: u64 = 0;
    let mut k: usize = 0;
    while k < 20
        invariant
            k <= 20,
            from + 20 <= s@.len(),
            from + 20 <= usize::MAX,
            field == s@.subrange(from as int, from + 20),
            all_digits(field.subrange(0, k as int)),
            value == digits_value(field.subrange(0, k as int)),
        decreases 20 - k,
    {
        let c = s.get_char(from + k);
        let ghost next = field.subrange(0, k + 1);
        proof {
            assert(field[k as int] == c);
            assert(next.drop_last() =~= field.subrange(0, k as int));
            assert(next.last() == c);
        }
        match parse_digit(c) {
            None => {
                proof {
                    assert(digit_value(field[k as int]) is None);
                }
                return None;
            },
            Some(d) => {
                if value > (u64::MAX - d as u64) / 10 {
                    proof {
                        assert(value * 10 + d > u64::MAX) by (nonlinear_arith)
                            requires
                                value > (u64::MAX - d as u64) / 10,
                        ;
                        lemma_digits_value_prefix(field, k + 1);
                    }
                    return None;
                }
                proof {
                    assert(value * 10 + d <= u64::MAX) by (nonlinear_arith)
                        requires
                            value <= (u64::MAX - d as u64) / 10,
                    ;
                    assert forall|i: int| 0 <= i < next.len() implies (#[trigger] digit_value(
                        next[i],
                    )) is Some by {
                        if i < k {
                            assert(next[i] == field.subrange(0, k as int)[i]);
                        }
                    }
                }
                value = value * 10 + d as u64;
                k = k + 1;
            },
        }
    }
    assert(field.subrange(0, 20) =~= field);
    Some(value)
}

fn digit_text(d: u64) -> (r: &'static str)
    requires
        d < 10,
    ensures
        r@ == seq![digit_char(d as nat)],
{
    proof {
        reveal_strlit("0");
        reveal_strlit("1");
        reveal_strlit("2");
        reveal_strlit("3");
        reveal_strlit("4");
        reveal_strlit("5");
        reveal_strlit("6");
        reveal_strlit("7");
        reveal_strlit("8");
        reveal_strlit("9");
    }
    let r = if d == 0 {
        "0"
    } else if d == 1 {
        "1"
    } else if d == 2 {
        "2"
    } else if d == 3 {
        "3"
    } else if d == 4 {
        "4"
    } else if d == 5 {
        "5"
    } else if d == 6 {
        "6"
    } else if d == 7 {
        "7"
    } else if d == 8 {
        "8"
    } else {
        "9"
    };
    assert(r@ =~= seq![digit_char(d as nat)]);
    r
}

/// The decimal spelling of `n`, without leading zeros.
pub open spec fn decimal(n: nat) -> Seq<char>
    decreases n,
{
    if n < 10 {
        seq![digit_char(n)]
    } else {
        decimal(n / 10).push(digit_char(n % 10))
    }
}

/// The decimal spelling of `n`, with a leading `-` if it is negative.
pub open spec fn signed_decimal(n: int) -> Seq<char> {
    if n < 0 {
        seq!['-'] + decimal((-n) as nat)
    } else {
        decimal(n as nat)
    }
}

/// Appends the decimal spelling of `n`.
pub fn push_decimal(n: u64, out: &mut String)
    ensures
        final(out)@ == old(out)@ + decimal(n as nat),
    decreases n,
{
    if n >= 10 {
        push_decimal(n / 10, out);
    }
    out.append(digit_text(n % 10));
    assert(final(out)@ =~= old(out)@ + decimal(n as nat));
}

/// Appends the decimal spelling of `n`, with a `-` if it is negative.
pub fn push_signed_decimal(n: i64, out: &mut String)
    ensures
        final(out)@ == old(out)@ + signed_decimal(n as int),
{
    if n < 0 {
        proof {
            reveal_strlit("-");
        }
        out.append("-");
        let magnitude: u64 = (-(n + 1)) as u64 + 1;
        push_decimal(magnitude, out);
        assert(final(out)@ =~= old(out)@ + signed_decimal(n as int));
    } else {
        push_decimal(n as u64, out);
    }
}

/// Appends the last `width` decimal digits of `n`, zero-padded.
pub fn push_fixed_digits(n: u64, width: usize, out: &mut String)
    ensures
        final(out)@ == old(out)@ + fixed_digits(n as nat, width as nat),
    decreases width,
{
    if width > 0 {
        push_fixed_digits(n / 10, width - 1, out);
        out.append(digit_text(n % 10));
        assert(final(out)@ =~= old(out)@ + fixed_digits(n as nat, width as nat));
    }
}

/// The value of a decimal digit character.
pub fn parse_digit(c: char) -> (r: Option<u8>)
    ensures
        r matches Some(d) ==> digit_value(c) == Some(d as nat),
        r is None ==> digit_value(c) is None,
{
    match c {
        '0' => Some(0),
        '1' => Some(1),
        '2' => Some(2),
        '3' => Some(3),
        '4' => Some(4),
        '5' => Some(5),
        '6' => Some(6),
        '7' => Some(7),
        '8' => Some(8),
        '9' => Some(9),
        _ => None,
    }
}

} // verus!
