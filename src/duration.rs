//! Durations as written in requests: a decimal count followed by a unit.
use vstd::prelude::*;

verus! {

pub open spec fn is_digit(c: char) -> bool {
    '0' <= c && c <= '9'
}

pub open spec fn digit_value(c: char) -> int {
    c as int - '0' as int
}

/// The number that a string of decimal digits denotes.
pub open spec fn decimal_value(s: Seq<char>) -> int
    decreases s.len(),
{
    if s.len() == 0 {
        0
    } else {
        10 * decimal_value(s.drop_last()) + digit_value(s.last())
    }
}

/// How many decimal digits `s` starts with.
pub open spec fn leading_digits(s: Seq<char>) -> nat
    decreases s.len(),
{
    if s.len() == 0 || !is_digit(s[0]) {
        0
    } else {
        1 + leading_digits(s.skip(1))
    }
}

/// Milliseconds in one of a unit: `ms`, `s`, `m`, `h` or `d`.
pub open spec fn unit_ms(u: Seq<char>) -> Option<int> {
    if u == seq!['m', 's'] {
        Some(1)
    } else if u == seq!['s'] {
        Some(1000)
    } else if u == seq!['m'] {
        Some(60_000)
    } else if u == seq!['h'] {
        Some(3_600_000)
    } else if u == seq!['d'] {
        Some(86_400_000)
    } else {
        None
    }
}

/// The milliseconds that `s` denotes: at least one digit, then a unit, nothing else.
pub open spec fn duration_ms(s: Seq<char>) -> Option<int> {
    let k = leading_digits(s) as int;
    if k == 0 {
        None
    } else {
        match unit_ms(s.skip(k)) {
            Some(f) => Some(decimal_value(s.take(k)) * f),
            None => None,
        }
    }
}

proof fn lemma_leading_digits(s: Seq<char>, i: int)
    requires
        0 <= i <= s.len(),
        forall|j: int| 0 <= j < i ==> is_digit(#[trigger] s[j]),
        i == s.len() || !is_digit(s[i]),
    ensures
        leading_digits(s) == i,
    decreases i,
{
    if i > 0 {
        let t = s.skip(1);
        assert forall|j: int| 0 <= j < i - 1 implies is_digit(#[trigger] t[j]) by {
            assert(t[j] == s[j + 1]);
        }
        if i < s.len() {
            assert(t[i - 1] == s[i]);
        }
        lemma_leading_digits(t, i - 1);
    }
}

proof fn lemma_decimal_grows(s: Seq<char>, i: int, k: int)
    requires
        0 <= i <= k <= s.len(),
        forall|j: int| 0 <= j < k ==> is_digit(#[trigger] s[j]),
    ensures
        decimal_value(s.take(i)) <= decimal_value(s.take(k)),
        0 <= decimal_value(s.take(i)),
    decreases k - i,
{
    if i < k {
        lemma_decimal_grows(s, i + 1, k);
        assert(s.take(i + 1).drop_last() =~= s.take(i));
        assert(is_digit(s[i]));
    } else {
        lemma_decimal_nonneg(s, k);
    }
}

proof fn lemma_decimal_nonneg(s: Seq<char>, k: int)
    requires
        0 <= k <= s.len(),
        forall|j: int| 0 <= j < k ==> is_digit(#[trigger] s[j]),
    ensures
        0 <= decimal_value(s.take(k)),
    decreases k,
{
    if k > 0 {
        lemma_decimal_nonneg(s, k - 1);
        assert(s.take(k).drop_last() =~= s.take(k - 1));
        assert(is_digit(s[k - 1]));
    }
}

/// The unit `u` stands for, in milliseconds.
fn unit_to_ms(u: &str) -> (r: Option<u64>)
    ensures
        match unit_ms(u@) {
            Some(f) => r == Some(f as u64),
            None => r is None,
        },
{
    let n = u.unicode_len();
    let ghost ms: Seq<char> = seq!['m', 's'];
    let ghost s: Seq<char> = seq!['s'];
    let ghost m: Seq<char> = seq!['m'];
    let ghost h: Seq<char> = seq!['h'];
    let ghost d: Seq<char> = seq!['d'];
    assert(ms.len() == 2 && ms[0] == 'm' && ms[1] == 's');
    assert(s.len() == 1 && s[0] == 's' && m.len() == 1 && m[0] == 'm');
    assert(h.len() == 1 && h[0] == 'h' && d.len() == 1 && d[0] == 'd');
    if n == 2 {
        if u.get_char(0) == 'm' && u.get_char(1) == 's' {
            assert(u@ =~= ms);
            return Some(1);
        }
        return None;
    }
    if n != 1 {
        return None;
    }
    let c = u.get_char(0);
    assert(u@ =~= seq![c]);
    if c == 's' {
        Some(1000)
    } else if c == 'm' {
        Some(60_000)
    } else if c == 'h' {
        Some(3_600_000)
    } else if c == 'd' {
        Some(86_400_000)
    } else {
        None
    }
}

/// The milliseconds that `text` denotes (`"1s"`, `"90m"`, `"168h"`), or `None` where
/// it is not a count followed by a unit, or the result does not fit in a `u64`.
pub fn parse_duration_ms(text: &str) -> (r: Option<u64>)
    ensures
        match duration_ms(text@) {
            Some(v) => if v <= u64::MAX {
                r == Some(v as u64)
            } else {
                r is None
            },
            None => r is None,
        },
{
    let n = text.unicode_len();
    let mut i: usize = 0;
    let mut value: u64 = 0;
    let mut overflow = false;
    assert(text@.take(0) =~= Seq::<char>::empty());
    while i < n && is_digit_char(text.get_char(i))
        invariant
            n == text@.len(),
            i <= n,
            forall|j: int| 0 <= j < i ==> is_digit(#[trigger] text@[j]),
            !overflow ==> value == decimal_value(text@.take(i as int)),
            overflow ==> decimal_value(text@.take(i as int)) > u64::MAX,
        decreases n - i,
    {
        let c = text.get_char(i);
        assert(text@.take(i + 1).drop_last() =~= text@.take(i as int));
        proof {
            lemma_decimal_nonneg(text@, i as int);
        }
        if !overflow {
            let digit = (c as u32 - '0' as u32) as u64;
            if value > (u64::MAX - digit) / 10 {
                overflow = true;
            } else {
                value = value * 10 + digit;
            }
        }
        i = i + 1;
    }
    proof {
        lemma_leading_digits(text@, i as int);
    }
    if i == 0 {
        return None;
    }
    let unit = unit_to_ms(text.substring_char(i, n));
    assert(text@.subrange(i as int, n as int) =~= text@.skip(i as int));
    match unit {
        None => None,
        Some(f) => {
            if overflow {
                assert(decimal_value(text@.take(i as int)) * f >= decimal_value(text@.take(i as int))) by (nonlinear_arith)
                    requires f >= 1, decimal_value(text@.take(i as int)) >= 0;
                None
            } else if f != 0 && value > u64::MAX / f {
                assert(value * f > u64::MAX) by (nonlinear_arith)
                    requires f >= 1, value > u64::MAX / f;
                None
            } else {
                assert(value * f <= u64::MAX) by (nonlinear_arith)
                    requires f >= 1, value <= u64::MAX / f;
                Some(value * f)
            }
        },
    }
}

fn is_digit_char(c: char) -> (r: bool)
    ensures
        r == is_digit(c),
{
    '0' <= c && c <= '9'
}

} // verus!
