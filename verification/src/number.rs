//! Decimal integers: the reading rules of `str::parse` for `i64` and
//! `usize`, and the decimal rendering of unsigned numbers.
use vstd::prelude::*;

verus! {

pub open spec fn is_digit(c: char) -> bool {
    '0' <= c && c <= '9'
}

pub open spec fn digit_value(c: char) -> int {
    (c as int) - ('0' as int)
}

pub open spec fn all_digits(s: Seq<char>) -> bool {
    forall|i: int| 0 <= i < s.len() ==> is_digit(#[trigger] s[i])
}

/// The number written by the decimal digits `s` (most significant first).
pub open spec fn digits_value(s: Seq<char>) -> int
    decreases s.len(),
{
    if s.len() == 0 {
        0
    } else {
        10 * digits_value(s.drop_last()) + digit_value(s.last())
    }
}

/// The integer that `s` denotes under the rules of `FromStr` for the
/// primitive integers, before the range of the target type is checked:
/// an optional `+` (or `-` where `signed`), then at least one ASCII digit,
/// and nothing else.
pub open spec fn int_of_str(s: Seq<char>, signed: bool) -> Option<int> {
    if s.len() == 0 {
        None
    } else {
        let neg = signed && s[0] == '-';
        let digits = if s[0] == '+' || neg {
            s.subrange(1, s.len() as int)
        } else {
            s
        };
        if digits.len() == 0 || !all_digits(digits) {
            None
        } else if neg {
            Some(-digits_value(digits))
        } else {
            Some(digits_value(digits))
        }
    }
}

/// What `s.parse::<i64>()` gives.
pub open spec fn i64_of_str(s: Seq<char>) -> Option<i64> {
    match int_of_str(s, true) {
        Some(v) => if i64::MIN <= v <= i64::MAX {
            Some(v as i64)
        } else {
            None
        },
        None => None,
    }
}

/// Whether `s.parse::<usize>()` succeeds.
pub open spec fn is_usize_str(s: Seq<char>) -> bool {
    match int_of_str(s, false) {
        Some(v) => v <= usize::MAX,
        None => false,
    }
}

proof fn lemma_digits_value_nonneg(s: Seq<char>)
    requires
        all_digits(s),
    ensures
        digits_value(s) >= 0,
    decreases s.len(),
{
    if s.len() > 0 {
        assert(is_digit(s[s.len() - 1]));
        lemma_digits_value_nonneg(s.drop_last());
    }
}

/// Larger than every magnitude that the parsers must tell apart.
const CAP: u128 = 0x4000_0000_0000_0000_0000u128;

/// Reads the digits of `v[lo..]`: `None` unless they are all digits and
/// there is at least one, else their value capped at `CAP`.
fn read_digits(v: &Vec<char>, lo: usize) -> (r: Option<u128>)
    requires
        lo <= v.len(),
    ensures
        ({
            let d = v@.subrange(lo as int, v.len() as int);
            match r {
                Some(x) => d.len() > 0 && all_digits(d) && (if digits_value(d) < CAP {
                    x == digits_value(d)
                } else {
                    x == CAP
                }),
                None => d.len() == 0 || !all_digits(d),
            }
        }),
{
    let n: usize = v.len();
    if lo == n {
        return None;
    }
    let mut acc: u128 = 0;
    let mut i: usize = lo;
    while i < n
        invariant
            lo <= i <= n == v.len(),
            all_digits(v@.subrange(lo as int, i as int)),
            acc <= CAP,
            digits_value(v@.subrange(lo as int, i as int)) < CAP ==> acc == digits_value(
                v@.subrange(lo as int, i as int),
            ),
            digits_value(v@.subrange(lo as int, i as int)) >= CAP ==> acc == CAP,
        decreases n - i,
    {
        let c = v[i];
        if !('0' <= c && c <= '9') {
            assert(v@.subrange(lo as int, n as int)[i - lo] == c);
            return None;
        }
        let d: u128 = ((c as u32) - ('0' as u32)) as u128;
        let ghost prev = v@.subrange(lo as int, i as int);
        let ghost next = v@.subrange(lo as int, i + 1);
        assert(next.drop_last() == prev);
        assert(next.last() == c);
        proof {
            lemma_digits_value_nonneg(prev);
        }
        let bigger: u128 = 10 * acc + d;
        acc = if bigger > CAP {
            CAP
        } else {
            bigger
        };
        assert(all_digits(next)) by {
            assert forall|k: int| 0 <= k < next.len() implies is_digit(#[trigger] next[k]) by {
                if k < prev.len() {
                    assert(next[k] == prev[k]);
                }
            }
        }
        i = i + 1;
    }
    Some(acc)
}

/// `s.parse::<i64>().ok()`.
pub fn parse_i64(s: &str) -> (r: Option<i64>)
    ensures
        r == i64_of_str(s@),
{
    let v = crate::text::chars_of(s);
    if v.len() == 0 {
        return None;
    }
    let neg: bool = v[0] == '-';
    let lo: usize = if v[0] == '+' || neg {
        1
    } else {
        0
    };
    assert(lo == 0 ==> v@.subrange(0, v.len() as int) == v@);
    match read_digits(&v, lo) {
        None => None,
        Some(mag) => {
            proof {
                lemma_digits_value_nonneg(v@.subrange(lo as int, v.len() as int));
            }
            if neg {
                if mag <= 0x8000_0000_0000_0000u128 {
                    Some((0i128 - (mag as i128)) as i64)
                } else {
                    None
                }
            } else {
                if mag <= 0x7fff_ffff_ffff_ffffu128 {
                    Some(mag as i64)
                } else {
                    None
                }
            }
        },
    }
}

/// `s.parse::<usize>().is_ok()`.
pub fn is_usize(s: &str) -> (r: bool)
    ensures
        r == is_usize_str(s@),
{
    let v = crate::text::chars_of(s);
    if v.len() == 0 {
        return false;
    }
    let lo: usize = if v[0] == '+' {
        1
    } else {
        0
    };
    assert(lo == 0 ==> v@.subrange(0, v.len() as int) == v@);
    match read_digits(&v, lo) {
        None => false,
        Some(mag) => mag <= (usize::MAX as u128),
    }
}

/// The decimal digits of `n`, without leading zeros (`"0"` for zero).
pub open spec fn decimal(n: nat) -> Seq<char>
    decreases n,
{
    if n < 10 {
        seq![(('0' as u32) + n) as char]
    } else {
        decimal(n / 10).push((('0' as u32) + (n % 10)) as char)
    }
}

/// `n.to_string()`.
pub fn u64_to_string(n: u64) -> (r: String)
    ensures
        r@ == decimal(n as nat),
    decreases n,
{
    if n < 10 {
        let mut s = String::new();
        s.push((('0' as u8) + (n as u8)) as char);
        assert(s@ == seq![(('0' as u32) + n) as char]);
        s
    } else {
        let mut s = u64_to_string(n / 10);
        s.push((('0' as u8) + ((n % 10) as u8)) as char);
        s
    }
}

} // verus!
