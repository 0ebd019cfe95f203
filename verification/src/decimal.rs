//! Exact decimal quantities (prices, quantities, PnL, fees) parsed from text.
use vstd::prelude::*;
use vstd::string::*;

verus! {

/// Most significant digits a decimal text may carry.
pub const MAX_DECIMAL_DIGITS: usize = 28;

/// Whether `c` is an ASCII decimal digit.
pub open spec fn is_digit(c: char) -> bool {
    '0' <= c && c <= '9'
}

/// Value of decimal digit `c`.
pub open spec fn digit_value(c: char) -> int {
    (c as int) - ('0' as int)
}

/// Whether every character of `s` is a decimal digit.
pub open spec fn all_digits(s: Seq<char>) -> bool {
    forall|i: int| 0 <= i < s.len() ==> is_digit(#[trigger] s[i])
}

/// Value of the digit string `ds`.
pub open spec fn digits_value(ds: Seq<char>) -> int
    decreases ds.len(),
{
    if ds.len() == 0 {
        0
    } else {
        digits_value(ds.drop_last()) * 10 + digit_value(ds.last())
    }
}

/// Number of leading decimal digits of `s`.
pub open spec fn leading_digits(s: Seq<char>) -> nat
    decreases s.len(),
{
    if s.len() == 0 || !is_digit(s[0]) {
        0
    } else {
        1 + leading_digits(s.skip(1))
    }
}

/// `10^n`.
pub open spec fn pow10(n: nat) -> int
    decreases n,
{
    if n == 0 {
        1
    } else {
        10 * pow10((n - 1) as nat)
    }
}

/// Drops trailing zero fraction digits: `(m, scale)` stands for `m / 10^scale`.
pub open spec fn normalized(m: int, scale: nat) -> (int, nat)
    decreases scale,
{
    if scale > 0 && m % 10 == 0 {
        normalized(m / 10, (scale - 1) as nat)
    } else {
        (m, scale)
    }
}

/// The text after an optional leading minus sign.
pub open spec fn unsigned_part(s: Seq<char>) -> Seq<char> {
    if s.len() > 0 && s[0] == '-' {
        s.skip(1)
    } else {
        s
    }
}

/// Integer digits of a decimal text.
pub open spec fn integer_digits(s: Seq<char>) -> Seq<char> {
    unsigned_part(s).take(leading_digits(unsigned_part(s)) as int)
}

/// Fraction digits of a decimal text (empty when it has no point).
pub open spec fn fraction_digits(s: Seq<char>) -> Seq<char> {
    let body = unsigned_part(s);
    let p = leading_digits(body);
    if p < body.len() {
        body.skip((p + 1) as int)
    } else {
        Seq::empty()
    }
}

/// Whether `s` is `[-]digits[.digits]` with at most `MAX_DECIMAL_DIGITS` digits.
pub open spec fn is_decimal_text(s: Seq<char>) -> bool {
    let body = unsigned_part(s);
    let p = leading_digits(body);
    &&& p > 0
    &&& p < body.len() ==> body[p as int] == '.' && fraction_digits(s).len() > 0 && all_digits(
        fraction_digits(s),
    )
    &&& integer_digits(s).len() + fraction_digits(s).len() <= MAX_DECIMAL_DIGITS
}

/// The normalized `(mantissa, scale)` a valid decimal text stands for.
pub open spec fn decimal_of(s: Seq<char>) -> (int, nat) {
    let magnitude = digits_value(integer_digits(s) + fraction_digits(s));
    let m = if s.len() > 0 && s[0] == '-' {
        -magnitude
    } else {
        magnitude
    };
    normalized(m, fraction_digits(s).len())
}

/// Error returned for a malformed decimal text.
#[derive(Clone, Copy, Debug, PartialEq, Eq, Structural)]
pub struct ParseDecimalError;

/// An exact decimal `mantissa / 10^scale`, kept without trailing zero fraction
/// digits so that equal values have equal representations.
#[derive(Clone, Copy, Debug, PartialEq, Eq, Hash, Structural)]
pub struct Decimal {
    /// Signed digits.
    pub mantissa: i128,
    /// Number of fraction digits.
    pub scale: u32,
}

proof fn lemma_pow10_positive(n: nat)
    ensures
        pow10(n) >= 1,
    decreases n,
{
    if n > 0 {
        lemma_pow10_positive((n - 1) as nat);
    }
}

proof fn lemma_pow10_28()
    ensures
        pow10(28) == 10000000000000000000000000000int,
{
    reveal_with_fuel(pow10, 29);
}

proof fn lemma_pow10_monotone(a: nat, b: nat)
    requires
        a <= b,
    ensures
        pow10(a) <= pow10(b),
    decreases b,
{
    if a < b {
        lemma_pow10_monotone(a, (b - 1) as nat);
        lemma_pow10_positive((b - 1) as nat);
    }
}

proof fn lemma_digits_bound(ds: Seq<char>)
    requires
        all_digits(ds),
    ensures
        0 <= digits_value(ds) < pow10(ds.len()),
    decreases ds.len(),
{
    if ds.len() > 0 {
        assert(all_digits(ds.drop_last()));
        lemma_digits_bound(ds.drop_last());
        assert(is_digit(ds[ds.len() - 1]));
    }
}

proof fn lemma_leading_digits(s: Seq<char>)
    ensures
        leading_digits(s) <= s.len(),
        all_digits(s.take(leading_digits(s) as int)),
        leading_digits(s) < s.len() ==> !is_digit(s[leading_digits(s) as int]),
    decreases s.len(),
{
    if s.len() > 0 && is_digit(s[0]) {
        lemma_leading_digits(s.skip(1));
        let p = leading_digits(s) as int;
        assert forall|i: int| 0 <= i < p implies is_digit(#[trigger] s.take(p)[i]) by {
            if i > 0 {
                assert(s.take(p)[i] == s.skip(1).take(p - 1)[i - 1]);
            }
        }
        if p < s.len() {
            assert(s[p] == s.skip(1)[p - 1]);
        }
    }
}

impl Decimal {
    /// The value zero.
    pub fn zero() -> (r: Decimal)
        ensures
            r.mantissa == 0 && r.scale == 0,
    {
        Decimal { mantissa: 0, scale: 0 }
    }

    /// Parses `[-]digits[.digits]` (at most `MAX_DECIMAL_DIGITS` digits).
    pub fn parse(text: &str) -> (r: Result<Decimal, ParseDecimalError>)
        ensures
            r is Ok <==> is_decimal_text(text@),
            r matches Ok(d) ==> (d.mantissa as int, d.scale as nat) == decimal_of(text@),
            r matches Ok(d) ==> d.scale == 0 || d.mantissa % 10 != 0,
    {
        let n = text.unicode_len();
        let ghost t = text@;
        let negative = n > 0 && text.get_char(0) == '-';
        let start: usize = if negative {
            1
        } else {
            0
        };
        let ghost body = unsigned_part(t);
        proof {
            assert(body =~= t.skip(start as int));
            lemma_leading_digits(body);
        }
        // Leading digits of the unsigned part.
        let mut i: usize = start;
        let mut stop = false;
        while !stop && i < n
            invariant
                n == t.len(),
                t == text@,
                start <= i <= n,
                body =~= t.skip(start as int),
                all_digits(body.take(i - start)),
                stop ==> i < n && !is_digit(t[i as int]),
            decreases n - i + (if stop { 0int } else { 1int }),
        {
            let c = text.get_char(i);
            if '0' <= c && c <= '9' {
                proof {
                    assert(body.take(i + 1 - start) =~= body.take(i - start).push(c));
                }
                i = i + 1;
            } else {
                stop = true;
            }
        }
        let p = i - start;
        proof {
            lemma_leading_digits_exact(body, p as nat);
            assert(integer_digits(t) =~= t.subrange(start as int, i as int));
        }
        if p == 0 || p > MAX_DECIMAL_DIGITS {
            return Err(ParseDecimalError);
        }
        // Fraction digits, when there is a point.
        let mut frac_start = n;
        if i < n {
            if text.get_char(i) != '.' {
                return Err(ParseDecimalError);
            }
            frac_start = i + 1;
            proof {
                assert(fraction_digits(t) =~= t.skip(frac_start as int));
            }
            if frac_start == n {
                return Err(ParseDecimalError);
            }
            let mut j = frac_start;
            while j < n
                invariant
                    n == t.len(),
                    t == text@,
                    frac_start <= j <= n,
                    fraction_digits(t) =~= t.skip(frac_start as int),
                    forall|k: int| frac_start <= k < j ==> is_digit(#[trigger] t[k]),
                decreases n - j,
            {
                let c = text.get_char(j);
                if !('0' <= c && c <= '9') {
                    proof {
                        assert(fraction_digits(t)[j - frac_start] == c);
                    }
                    return Err(ParseDecimalError);
                }
                j = j + 1;
            }
            proof {
                assert forall|k: int| 0 <= k < fraction_digits(t).len() implies is_digit(
                    #[trigger] fraction_digits(t)[k],
                ) by {
                    assert(fraction_digits(t)[k] == t[frac_start + k]);
                }
            }
            if p + (n - frac_start) > MAX_DECIMAL_DIGITS {
                return Err(ParseDecimalError);
            }
        } else {
            proof {
                assert(fraction_digits(t) =~= Seq::<char>::empty());
            }
        }
        let ghost digits = integer_digits(t) + fraction_digits(t);
        proof {
            assert(all_digits(digits)) by {
                assert forall|k: int| 0 <= k < digits.len() implies is_digit(#[trigger] digits[k]) by {
                    if k < p {
                        assert(digits[k] == body.take(p as int)[k]);
                    } else {
                        assert(digits[k] == fraction_digits(t)[k - p]);
                    }
                }
            }
            lemma_pow10_28();
        }
        // Accumulate the digits: first the integer part, then the fraction.
        let total: usize = if i < n { p + (n - frac_start) } else { p };
        proof {
            assert(total == digits.len());
        }
        let mut magnitude: i128 = 0;
        let mut k: usize = 0;
        let mut scale: u32 = 0;
        while k < total
            invariant
                n == t.len(),
                t == text@,
                digits == integer_digits(t) + fraction_digits(t),
                total == digits.len(),
                total <= MAX_DECIMAL_DIGITS,
                all_digits(digits),
                p == integer_digits(t).len(),
                start + p <= n,
                integer_digits(t) =~= t.subrange(start as int, (start + p) as int),
                p < total ==> fraction_digits(t) =~= t.skip((start + p + 1) as int),
                p < total ==> start + p + 1 + (total - p) == n,
                p <= total,
                k <= total,
                magnitude == digits_value(digits.take(k as int)),
                scale as int == (if k > p { k - p } else { 0 }),
                pow10(28) == 10000000000000000000000000000int,
            decreases total - k,
        {
            let idx = if k < p {
                start + k
            } else {
                start + p + 1 + (k - p)
            };
            proof {
                if k < p {
                    assert(digits[k as int] == integer_digits(t)[k as int]);
                } else {
                    assert(digits[k as int] == fraction_digits(t)[k - p]);
                }
            }
            let c = text.get_char(idx);
            proof {
                assert(c == digits[k as int]);
                assert(is_digit(digits[k as int]));
                lemma_digits_bound(digits.take(k as int));
                lemma_pow10_monotone(k as nat, 27);
                assert(pow10(28) == 10 * pow10(27));
                assert(digits.take(k + 1).drop_last() =~= digits.take(k as int));
            }
            magnitude = magnitude * 10 + ((c as u32) - ('0' as u32)) as i128;
            if k >= p {
                scale = scale + 1;
            }
            k = k + 1;
        }
        proof {
            assert(digits.take(total as int) =~= digits);
            lemma_digits_bound(digits);
            lemma_pow10_monotone(total as nat, 28);
        }
        let mut mantissa: i128 = if negative {
            -magnitude
        } else {
            magnitude
        };
        let ghost m0 = mantissa as int;
        let ghost s0 = scale as nat;
        proof {
            assert(s0 == fraction_digits(t).len());
        }
        while scale > 0 && mantissa % 10 == 0
            invariant
                normalized(mantissa as int, scale as nat) == normalized(m0, s0),
                -10000000000000000000000000000 < mantissa < 10000000000000000000000000000,
            decreases scale,
        {
            mantissa = mantissa / 10;
            scale = scale - 1;
        }
        Ok(Decimal { mantissa, scale })
    }
}

proof fn lemma_leading_digits_prefix(s: Seq<char>, k: nat)
    requires
        k <= s.len(),
        all_digits(s.take(k as int)),
    ensures
        leading_digits(s) >= k,
    decreases k,
{
    if k > 0 {
        assert(is_digit(s.take(k as int)[0]));
        assert(all_digits(s.skip(1).take(k - 1))) by {
            assert forall|i: int| 0 <= i < k - 1 implies is_digit(#[trigger] s.skip(1).take(k - 1)[i]) by {
                assert(s.skip(1).take(k - 1)[i] == s.take(k as int)[i + 1]);
            }
        }
        lemma_leading_digits_prefix(s.skip(1), (k - 1) as nat);
    }
}

proof fn lemma_leading_digits_exact(s: Seq<char>, k: nat)
    requires
        k <= s.len(),
        all_digits(s.take(k as int)),
        k < s.len() ==> !is_digit(s[k as int]),
    ensures
        leading_digits(s) == k,
    decreases k,
{
    lemma_leading_digits(s);
    lemma_leading_digits_prefix(s, k);
    if leading_digits(s) > k {
        assert(is_digit(s.take(leading_digits(s) as int)[k as int]));
    }
}

} // verus!
