//! Durations written as a decimal number and a unit: `3000ms`, `0.5s`, `5m`, `1h`.
use vstd::prelude::*;
use vstd::string::*;
use crate::error::PigletError;
use crate::utils::text::{chars_of, trim, trim_chars};

verus! {

/// Fraction digits past this many are ignored.
pub const FRACTION_DIGITS: usize = 9;

pub open spec fn is_digit(c: char) -> bool {
    '0' <= c && c <= '9'
}

/// A nonempty run of ASCII digits.
pub open spec fn is_digits(d: Seq<char>) -> bool {
    d.len() > 0 && forall|i: int| 0 <= i < d.len() ==> is_digit(#[trigger] d[i])
}

/// The number the digits `d` spell (0 for none).
pub open spec fn digits_value(d: Seq<char>) -> nat
    decreases d.len(),
{
    if d.len() == 0 {
        0
    } else {
        digits_value(d.drop_last()) * 10 + (d.last() as nat - '0' as nat) as nat
    }
}

pub open spec fn pow10(k: nat) -> nat
    decreases k,
{
    if k == 0 {
        1
    } else {
        10 * pow10((k - 1) as nat)
    }
}

/// The unit at the end of `t`: its factor to milliseconds and where the number ends.
pub open spec fn unit_of(t: Seq<char>) -> Option<(nat, int)> {
    let n = t.len() as int;
    if n >= 2 && t[n - 2] == 'm' && t[n - 1] == 's' {
        Some((1nat, n - 2))
    } else if n >= 1 && t[n - 1] == 's' {
        Some((1000nat, n - 1))
    } else if n >= 1 && t[n - 1] == 'm' {
        Some((60000nat, n - 1))
    } else if n >= 1 && t[n - 1] == 'h' {
        Some((3600000nat, n - 1))
    } else {
        None
    }
}

/// Index of the first non-digit at or after `from`, or `b.len()`.
pub open spec fn digits_end(b: Seq<char>, from: int) -> int
    decreases b.len() - from,
{
    if from >= b.len() {
        b.len() as int
    } else if is_digit(b[from]) {
        digits_end(b, from + 1)
    } else {
        from
    }
}

/// The whole and fraction digits of `b` if it reads `digits` or `digits.digits`.
pub open spec fn number_parts(b: Seq<char>) -> Option<(Seq<char>, Seq<char>)> {
    let i = digits_end(b, 0);
    if i == 0 || i > b.len() {
        None
    } else if i == b.len() {
        Some((b, seq![]))
    } else if b[i] == '.' && is_digits(b.subrange(i + 1, b.len() as int)) {
        Some((b.subrange(0, i), b.subrange(i + 1, b.len() as int)))
    } else {
        None
    }
}

/// Milliseconds in the duration `s` (surrounding whitespace ignored): the number
/// times the unit, rounded down, at most `u64::MAX`; `None` if `s` is not a
/// decimal number followed by `ms`, `s`, `m` or `h`.
pub open spec fn duration_ms(s: Seq<char>) -> Option<u64> {
    let t = trim(s);
    match unit_of(t) {
        None => None,
        Some((m, end)) => match number_parts(t.subrange(0, end)) {
            None => None,
            Some((w, f)) => {
                let k = if f.len() > FRACTION_DIGITS {
                    FRACTION_DIGITS as nat
                } else {
                    f.len()
                };
                let v = digits_value(w) * m + digits_value(f.take(k as int)) * m / pow10(k);
                Some(
                    if v > u64::MAX {
                        u64::MAX
                    } else {
                        v as u64
                    },
                )
            },
        },
    }
}

/// Cap for the whole part: beyond it the result saturates anyway.
const CAP: u128 = 0x1_0000_0000_0000_0000;

pub proof fn lemma_pow10_mono(a: nat, b: nat)
    requires
        a <= b,
    ensures
        1 <= pow10(a) <= pow10(b),
    decreases b,
{
    if b > a {
        lemma_pow10_mono(a, (b - 1) as nat);
    } else if a > 0 {
        lemma_pow10_mono((a - 1) as nat, (a - 1) as nat);
    }
}

pub proof fn lemma_pow10_bound(k: nat)
    requires
        k <= 9,
    ensures
        1 <= pow10(k) <= 1_000_000_000,
{
    lemma_pow10_mono(k, 9);
    reveal_with_fuel(pow10, 10);
    assert(pow10(9) == 1_000_000_000);
}

proof fn lemma_digits_bound(d: Seq<char>)
    requires
        forall|i: int| 0 <= i < d.len() ==> is_digit(#[trigger] d[i]),
    ensures
        digits_value(d) < pow10(d.len()),
    decreases d.len(),
{
    if d.len() > 0 {
        lemma_digits_bound(d.drop_last());
    }
}

/// Parses a duration into milliseconds.
#[verifier::loop_isolation(false)]
pub fn parse_duration(duration: &str) -> (r: Result<u64, PigletError>)
    ensures
        match duration_ms(duration@) {
            Some(v) => r == Ok::<u64, PigletError>(v),
            None => r matches Err(PigletError::InvalidDuration(e)) && e@ == duration@,
        },
{
    let raw = chars_of(duration);
    let t = trim_chars(&raw);
    let n = t.len();
    let (m, end): (u64, usize) = if n >= 2 && t[n - 2] == 'm' && t[n - 1] == 's' {
        (1, n - 2)
    } else if n >= 1 && t[n - 1] == 's' {
        (1000, n - 1)
    } else if n >= 1 && t[n - 1] == 'm' {
        (60000, n - 1)
    } else if n >= 1 && t[n - 1] == 'h' {
        (3600000, n - 1)
    } else {
        return Err(PigletError::InvalidDuration(String::from_str(duration)));
    };
    let ghost b = t@.subrange(0, end as int);
    let mut whole: u128 = 0;
    let mut i: usize = 0;
    while i < end && '0' <= t[i] && t[i] <= '9'
        invariant
            i <= end <= n == t@.len(),
            b == t@.subrange(0, end as int),
            digits_end(b, 0) == digits_end(b, i as int),
            forall|q: int| 0 <= q < i ==> is_digit(#[trigger] b[q]),
            whole == if digits_value(b.take(i as int)) < CAP {
                digits_value(b.take(i as int))
            } else {
                CAP as nat
            },
        decreases end - i,
    {
        proof {
            assert(b.take(i + 1).drop_last() =~= b.take(i as int));
        }
        let d = (t[i] as u32 - '0' as u32) as u128;
        whole = whole * 10 + d;
        if whole > CAP {
            whole = CAP;
        }
        i = i + 1;
    }
    proof {
        assert(digits_end(b, i as int) == i);
    }
    if i == 0 {
        return Err(PigletError::InvalidDuration(String::from_str(duration)));
    }
    let mut frac: u64 = 0;
    let mut k: usize = 0;
    if i < end {
        if t[i] != '.' || i + 1 == end {
            return Err(PigletError::InvalidDuration(String::from_str(duration)));
        }
        let mut j: usize = i + 1;
        while j < end
            invariant
                i + 1 <= j <= end <= n == t@.len(),
                i < b.len(),
                b == t@.subrange(0, end as int),
                forall|q: int| i + 1 <= q < j ==> is_digit(#[trigger] b[q]),
                k <= FRACTION_DIGITS,
                k == (if j - (i + 1) > FRACTION_DIGITS { FRACTION_DIGITS as int } else { j - (i + 1) }),
                frac == digits_value(b.subrange(i + 1, j as int).take(k as int)),
                frac < pow10(k as nat),
            decreases end - j,
        {
            let c = t[j];
            proof {
                assert(b[j as int] == c);
                assert(b.subrange(i + 1, b.len() as int)[j - (i + 1)] == c);
            }
            if c < '0' || c > '9' {
                proof {
                    assert(!is_digits(b.subrange(i + 1, b.len() as int)));
                }
                return Err(PigletError::InvalidDuration(String::from_str(duration)));
            }
            proof {
                lemma_pow10_bound(k as nat);
            }
            if k < FRACTION_DIGITS {
                proof {
                    assert(b.subrange(i + 1, j + 1).take(k + 1).drop_last() =~= b.subrange(i + 1, j as int).take(k as int));
                }
                frac = frac * 10 + (c as u32 - '0' as u32) as u64;
                k = k + 1;
            } else {
                proof {
                    assert(b.subrange(i + 1, j + 1).take(k as int) =~= b.subrange(i + 1, j as int).take(k as int));
                }
            }
            j = j + 1;
        }
        proof {
            assert(is_digits(b.subrange(i + 1, b.len() as int)));
        }
    } else {
        proof {
            assert(b.take(i as int) =~= b);
        }
    }
    let ghost w = b.take(i as int);
    let ghost f = if i < end { b.subrange(i + 1, end as int) } else { seq![] };
    proof {
        if i < end {
            assert(w =~= b.subrange(0, i as int));
            assert(f.take(k as int) =~= b.subrange(i + 1, end as int).take(k as int));
        } else {
            assert(w =~= b);
            assert(k == 0);
            assert(f.take(0) =~= seq![]);
        }
        assert(number_parts(b) == Some((w, f)));
        assert(frac == digits_value(f.take(k as int)));
    }
    let mut scale: u64 = 1;
    let mut q: usize = 0;
    while q < k
        invariant
            q <= k <= FRACTION_DIGITS,
            scale == pow10(q as nat),
        decreases k - q,
    {
        proof {
            lemma_pow10_bound(q as nat);
        }
        scale = scale * 10;
        q = q + 1;
    }
    proof {
        lemma_pow10_bound(k as nat);
    }
    proof {
        assert(frac * m <= 1_000_000_000 * 3_600_000) by (nonlinear_arith)
            requires
                frac < 1_000_000_000,
                m <= 3_600_000,
        ;
        assert(whole * m <= CAP * 3_600_000) by (nonlinear_arith)
            requires
                whole <= CAP,
                m <= 3_600_000,
        ;
    }
    let part = frac * m / scale;
    let total: u128 = whole * (m as u128) + part as u128;
    proof {
        let v = digits_value(w) * (m as nat) + digits_value(f.take(k as int)) * (m as nat) / pow10(k as nat);
        if digits_value(w) >= CAP {
            assert(whole == CAP);
            assert(v >= CAP) by (nonlinear_arith)
                requires
                    digits_value(w) >= CAP,
                    m >= 1,
                    v >= digits_value(w) * m,
            ;
            assert(total >= CAP) by (nonlinear_arith)
                requires
                    whole == CAP,
                    m >= 1,
                    total >= whole * m,
            ;
        } else {
            assert(whole == digits_value(w));
            assert(total == v);
        }
    }
    if total > u64::MAX as u128 {
        Ok(u64::MAX)
    } else {
        Ok(total as u64)
    }
}

} // verus!
