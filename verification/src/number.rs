//! Reading a number off a byte string: the longest run of digits at a
//! position, and its value.

use vstd::prelude::*;

verus! {

/// The bases in which numbers are written.
#[derive(Clone, Copy, Debug, PartialEq, Eq, Structural)]
pub enum Radix {
    Decimal,
    Hexadecimal,
}

impl Radix {
    /// The base as a number.
    pub open spec fn spec_base(&self) -> int {
        match self {
            Radix::Decimal => 10,
            Radix::Hexadecimal => 16,
        }
    }

    /// The base as a number.
    pub fn base(&self) -> (b: u64)
        ensures
            b == self.spec_base(),
    {
        match self {
            Radix::Decimal => 10,
            Radix::Hexadecimal => 16,
        }
    }
}

/// The value of `c` as a digit in base `radix` (10 or 16), if it is one.
/// Hexadecimal digits may be written in either case.
pub open spec fn spec_digit(c: u8, radix: int) -> Option<int> {
    if 48 <= c <= 57 {
        Some(c - 48)
    } else if radix == 16 && 97 <= c <= 102 {
        Some(c - 87)
    } else if radix == 16 && 65 <= c <= 70 {
        Some(c - 55)
    } else {
        None
    }
}

/// Where the longest run of digits that starts at `i` ends: the first
/// position from `i` on that holds no digit, or the end of `s`.
pub open spec fn run_end(s: Seq<u8>, i: int, radix: int) -> int
    decreases s.len() - i,
{
    if 0 <= i < s.len() && spec_digit(s[i], radix) is Some {
        run_end(s, i + 1, radix)
    } else {
        i
    }
}

/// The number that the digits `s[i..j]` spell, most significant digit first.
pub open spec fn run_value(s: Seq<u8>, i: int, j: int, radix: int) -> int
    decreases j - i,
{
    if j <= i {
        0
    } else {
        run_value(s, i, j - 1, radix) * radix + spec_digit(s[j - 1], radix).unwrap()
    }
}

/// The number written at position `i` of `s`, with the position that follows
/// it. The number is the longest run of digits there. There is none where the
/// run is empty, is longer than `max_digits`, starts with a zero that is not
/// the whole number although `allow_zero_prefix` is off, or spells more than
/// `max_value`.
pub open spec fn spec_number(
    s: Seq<u8>,
    i: int,
    radix: int,
    max_digits: Option<int>,
    allow_zero_prefix: bool,
    max_value: int,
) -> Option<(int, int)> {
    let j = run_end(s, i, radix);
    if j <= i {
        None
    } else if max_digits is Some && j - i > max_digits.unwrap() {
        None
    } else if !allow_zero_prefix && j - i > 1 && s[i] == 48 {
        None
    } else if run_value(s, i, j, radix) > max_value {
        None
    } else {
        Some((run_value(s, i, j, radix), j))
    }
}

/// A run that starts inside a run of digits ends where that run ends.
pub proof fn lemma_run_end_from_inside(s: Seq<u8>, i: int, k: int, radix: int)
    requires
        0 <= i <= k <= s.len(),
        forall|m: int| i <= m < k ==> spec_digit(#[trigger] s[m], radix) is Some,
    ensures
        run_end(s, i, radix) == run_end(s, k, radix),
    decreases k - i,
{
    if i < k {
        lemma_run_end_from_inside(s, i + 1, k, radix);
    }
}

/// The value of a run of digits is not negative and does not shrink as the
/// run grows.
pub proof fn lemma_run_value_grows(s: Seq<u8>, i: int, k: int, j: int, radix: int)
    requires
        radix == 10 || radix == 16,
        0 <= i <= k <= j <= s.len(),
        forall|m: int| i <= m < j ==> spec_digit(#[trigger] s[m], radix) is Some,
    ensures
        0 <= run_value(s, i, k, radix) <= run_value(s, i, j, radix),
    decreases j - i,
{
    if j > i {
        if k < j {
            lemma_run_value_grows(s, i, k, j - 1, radix);
            let v = run_value(s, i, j - 1, radix);
            assert(v * radix >= v) by (nonlinear_arith)
                requires
                    v >= 0,
                    radix >= 1,
            ;
        } else {
            lemma_run_value_grows(s, i, j - 1, j - 1, radix);
            let v = run_value(s, i, j - 1, radix);
            assert(v * radix >= 0) by (nonlinear_arith)
                requires
                    v >= 0,
                    radix >= 1,
            ;
        }
    }
}

/// The value of `c` as a digit in base `radix`.
pub fn digit(c: u8, radix: Radix) -> (d: Option<u64>)
    ensures
        d matches Some(v) ==> spec_digit(c, radix.spec_base()) == Some(v as int) && v
            < radix.spec_base(),
        d is None ==> spec_digit(c, radix.spec_base()) is None,
{
    let hexadecimal = match radix {
        Radix::Decimal => false,
        Radix::Hexadecimal => true,
    };
    if 48 <= c && c <= 57 {
        Some((c - 48) as u64)
    } else if hexadecimal && 97 <= c && c <= 102 {
        Some((c - 87) as u64)
    } else if hexadecimal && 65 <= c && c <= 70 {
        Some((c - 55) as u64)
    } else {
        None
    }
}

/// A limit on the number of digits, as a mathematical integer.
pub open spec fn spec_limit(max_digits: Option<usize>) -> Option<int> {
    match max_digits {
        Some(m) => Some(m as int),
        None => None,
    }
}

/// Reads the number written at position `i` of `s`: its value and the
/// position that follows it.
pub fn read_number(
    s: &[u8],
    i: usize,
    radix: Radix,
    max_digits: Option<usize>,
    allow_zero_prefix: bool,
    max_value: u32,
) -> (r: Option<(u32, usize)>)
    ensures
        match r {
            Some((v, j)) => spec_number(
                s@,
                i as int,
                radix.spec_base(),
                spec_limit(max_digits),
                allow_zero_prefix,
                max_value as int,
            ) == Some((v as int, j as int)) && i < j <= s@.len(),
            None => spec_number(
                s@,
                i as int,
                radix.spec_base(),
                spec_limit(max_digits),
                allow_zero_prefix,
                max_value as int,
            ) is None,
        },
{
    if i > s.len() {
        return None;
    }
    let base = radix.base();
    let mut j: usize = i;
    let mut value: u64 = 0;
    let mut too_large: bool = false;
    while j < s.len()
        invariant
            base == radix.spec_base(),
            i <= j <= s@.len(),
            forall|m: int| i <= m < j ==> spec_digit(#[trigger] s@[m], base as int) is Some,
            too_large <==> run_value(s@, i as int, j as int, base as int) > max_value,
            !too_large ==> value == run_value(s@, i as int, j as int, base as int),
        ensures
            j < s@.len() ==> spec_digit(s@[j as int], base as int) is None,
        decreases s@.len() - j,
    {
        match digit(s[j], radix) {
            Some(d) => {
                proof {
                    lemma_run_value_grows(s@, i as int, j as int, j as int + 1, base as int);
                }
                if !too_large {
                    assert(value * base + d <= max_value * 16 + 15) by (nonlinear_arith)
                        requires
                            value <= max_value,
                            base <= 16,
                            d <= 15,
                    ;
                    value = value * base + d;
                    if value > max_value as u64 {
                        too_large = true;
                    }
                }
                j = j + 1;
            },
            None => {
                break ;
            },
        }
    }
    proof {
        lemma_run_end_from_inside(s@, i as int, j as int, base as int);
        assert(run_end(s@, j as int, base as int) == j);
    }
    if j == i {
        return None;
    }
    match max_digits {
        Some(m) => {
            if j - i > m {
                return None;
            }
        },
        None => {},
    }
    if !allow_zero_prefix && j - i > 1 && s[i] == 48 {
        return None;
    }
    if too_large {
        return None;
    }
    Some((value as u32, j))
}

} // verus!
