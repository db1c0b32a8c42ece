//! Decimal rendering and parsing of lamport amounts.
//!
//! Amounts cross the HTTP boundary as decimal strings; these are the exact,
//! total definitions of what those strings mean.

use vstd::prelude::*;

use crate::errors::{Error, ErrorKind};

verus! {

/// The character for one decimal digit value.
pub open spec fn spec_digit_char(d: int) -> char {
    if d == 0 {
        '0'
    } else if d == 1 {
        '1'
    } else if d == 2 {
        '2'
    } else if d == 3 {
        '3'
    } else if d == 4 {
        '4'
    } else if d == 5 {
        '5'
    } else if d == 6 {
        '6'
    } else if d == 7 {
        '7'
    } else if d == 8 {
        '8'
    } else {
        '9'
    }
}

/// The decimal rendering of a non-negative integer, most significant digit
/// first, with no leading zeros (zero itself renders as "0").
pub open spec fn spec_decimal(n: int) -> Seq<char>
    decreases n,
{
    if n <= 9 {
        seq![spec_digit_char(n)]
    } else {
        spec_decimal(n / 10).push(spec_digit_char(n % 10))
    }
}

/// Whether `c` is a decimal digit.
pub open spec fn spec_is_digit(c: char) -> bool {
    '0' <= c && c <= '9'
}

/// The value of one digit character.
pub open spec fn spec_digit_value(c: char) -> int {
    c as int - '0' as int
}

/// The value of a digit string, most significant digit first.
pub open spec fn spec_decimal_value(s: Seq<char>) -> int
    decreases s.len(),
{
    if s.len() == 0 {
        0
    } else {
        spec_decimal_value(s.drop_last()) * 10 + spec_digit_value(s.last())
    }
}

/// A digit-string prefix never exceeds the value of the whole string.
pub proof fn lemma_decimal_value_prefix(s: Seq<char>, k: int)
    requires
        0 <= k <= s.len(),
        forall|i: int| 0 <= i < s.len() ==> spec_is_digit(#[trigger] s[i]),
    ensures
        0 <= spec_decimal_value(s.take(k)) <= spec_decimal_value(s),
    decreases s.len() - k,
{
    lemma_decimal_value_nonneg(s.take(k));
    if k < s.len() {
        lemma_decimal_value_prefix(s, k + 1);
        assert(s.take(k + 1).drop_last() =~= s.take(k));
        assert(s.take(k + 1).last() == s[k]);
        lemma_decimal_value_nonneg(s.take(k));
    } else {
        assert(s.take(k) =~= s);
    }
}

/// A digit string's value is non-negative.
pub proof fn lemma_decimal_value_nonneg(s: Seq<char>)
    requires
        forall|i: int| 0 <= i < s.len() ==> spec_is_digit(#[trigger] s[i]),
    ensures
        spec_decimal_value(s) >= 0,
    decreases s.len(),
{
    if s.len() > 0 {
        assert(forall|i: int|
            0 <= i < s.drop_last().len() ==> spec_is_digit(#[trigger] s.drop_last()[i]));
        lemma_decimal_value_nonneg(s.drop_last());
    }
}

fn digit_str(d: u128) -> (s: &'static str)
    requires
        d < 10,
    ensures
        s@ =~= seq![spec_digit_char(d as int)],
{
    proof {
        reveal_strlit("0");
        reveal_strlit("1");
        reveal_strlit("2");
        reveal_strlit("3");
        reveal_strlit("4");
        reveal_strlit("5");
        reveal_strlit("6");
        reveal_strlit("7");
        reveal_strlit("8");
        reveal_strlit("9");
    }
    match d {
        0 => "0",
        1 => "1",
        2 => "2",
        3 => "3",
        4 => "4",
        5 => "5",
        6 => "6",
        7 => "7",
        8 => "8",
        _ => "9",
    }
}

/// Render `n` in decimal.
pub fn format_u64(n: u64) -> (r: String)
    ensures
        r@ == spec_decimal(n as int),
{
    format_u128(n as u128)
}

/// Render `n` in decimal.
pub fn format_u128(n: u128) -> (r: String)
    ensures
        r@ == spec_decimal(n as int),
{
    if n == 0 {
        let r = String::from_str("0");
        proof {
            reveal_strlit("0");
            assert(r@ =~= spec_decimal(0));
        }
        return r;
    }

    // Low-order digits first.
    let mut digits: Vec<u128> = Vec::new();
    let mut m: u128 = n;
    while m > 0
        invariant
            forall|i: int| 0 <= i < digits@.len() ==> #[trigger] digits@[i] < 10,
            spec_decimal(n as int) =~= (if m > 0 {
                spec_decimal(m as int)
            } else {
                Seq::<char>::empty()
            }) + spec_rev_digit_chars(digits@),
        decreases m,
    {
        let d = m % 10;
        let ghost old_digits = digits@;
        let ghost old_m = m;
        digits.push(d);
        m = m / 10;
        proof {
            assert(digits@.drop_last() =~= old_digits);
            lemma_rev_digit_chars_push(old_digits, d);
            if old_m > 9 {
                assert(spec_decimal(old_m as int) == spec_decimal(old_m as int / 10).push(
                    spec_digit_char(old_m as int % 10),
                ));
            } else {
                assert(spec_decimal(old_m as int) =~= seq![spec_digit_char(old_m as int)]);
            }
            assert(spec_decimal(n as int) =~= (if m > 0 {
                spec_decimal(m as int)
            } else {
                Seq::<char>::empty()
            }) + spec_rev_digit_chars(digits@));
        }
    }

    // Append them most significant first.
    let mut r = String::new();
    let mut j: usize = 0;
    let count = digits.len();
    while j < count
        invariant
            count == digits@.len(),
            j <= count,
            forall|i: int| 0 <= i < digits@.len() ==> #[trigger] digits@[i] < 10,
            spec_decimal(n as int) =~= spec_rev_digit_chars(digits@),
            r@ =~= spec_rev_digit_chars(digits@).take(j as int),
        decreases count - j,
    {
        let d = digits[count - 1 - j];
        r.append(digit_str(d));
        proof {
            assert(spec_rev_digit_chars(digits@)[j as int] == spec_digit_char(
                digits@[digits@.len() - 1 - j] as int,
            ));
            assert(r@ =~= spec_rev_digit_chars(digits@).take(j as int + 1));
        }
        j = j + 1;
    }
    proof {
        assert(r@ =~= spec_decimal(n as int));
    }
    r
}

/// The digit characters of `digits` read back to front: `digits` stores the
/// least significant digit first, the rendering wants it last.
pub open spec fn spec_rev_digit_chars(digits: Seq<u128>) -> Seq<char> {
    Seq::new(digits.len(), |i: int| spec_digit_char(digits[digits.len() - 1 - i] as int))
}

proof fn lemma_rev_digit_chars_push(digits: Seq<u128>, d: u128)
    ensures
        spec_rev_digit_chars(digits.push(d)) =~= seq![spec_digit_char(d as int)]
            + spec_rev_digit_chars(digits),
{
}

/// Parse a decimal string into a `u64`. Succeeds exactly on non-empty,
/// all-digit strings whose value fits; anything else is a usage error.
pub fn parse_u64(s: &str) -> (r: Result<u64, Error>)
    ensures
        r is Ok <==> (s@.len() > 0 && (forall|i: int|
            0 <= i < s@.len() ==> spec_is_digit(#[trigger] s@[i])) && spec_decimal_value(s@)
            <= u64::MAX),
        r matches Ok(v) ==> v == spec_decimal_value(s@),
        r matches Err(e) ==> e.spec_kind() == ErrorKind::Usage,
{
    let n = s.unicode_len();
    if n == 0 {
        return Err(Error::new(ErrorKind::Usage, String::from_str("empty amount")));
    }
    let mut v: u64 = 0;
    let mut i: usize = 0;
    while i < n
        invariant
            n == s@.len(),
            i <= n,
            forall|k: int| 0 <= k < i ==> spec_is_digit(#[trigger] s@[k]),
            v == spec_decimal_value(s@.take(i as int)),
        decreases n - i,
    {
        let c = s.get_char(i);
        let code: u32 = c as u32;
        if code < 48 || code > 57 {
            return Err(Error::new(
                ErrorKind::Usage,
                String::from_str("amount must be decimal digits"),
            ));
        }
        let d: u64 = (code - 48) as u64;
        let next = match v.checked_mul(10) {
            Some(t) => t.checked_add(d),
            None => None,
        };
        v = match next {
            Some(t) => t,
            None => {
                proof {
                    assert(s@.take(i as int + 1).drop_last() =~= s@.take(i as int));
                    assert(spec_decimal_value(s@.take(i as int + 1)) > u64::MAX);
                    if s@.len() > 0 && (forall|k: int|
                        0 <= k < s@.len() ==> spec_is_digit(#[trigger] s@[k])) {
                        lemma_decimal_value_prefix(s@, i as int + 1);
                    }
                }
                return Err(Error::new(
                    ErrorKind::Usage,
                    String::from_str("amount does not fit in 64 bits"),
                ));
            },
        };
        proof {
            assert(s@.take(i as int + 1).drop_last() =~= s@.take(i as int));
            assert(s@.take(i as int + 1).last() == s@[i as int]);
        }
        i = i + 1;
    }
    proof {
        assert(s@.take(n as int) =~= s@);
    }
    Ok(v)
}

} // verus!
