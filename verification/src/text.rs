//! Verified text helpers: substring search, decimal rendering of
//! fixed-point values, and string repetition.

use vstd::prelude::*;
use vstd::string::StrSliceExecFns;
use vstd::string::StringExecFns;

verus! {

/// `needle` occurs as a contiguous run of characters inside `haystack`.
pub open spec fn spec_str_contains(haystack: Seq<char>, needle: Seq<char>) -> bool {
    exists|i: int|
        0 <= i && i + needle.len() <= haystack.len() && #[trigger] haystack.subrange(
            i,
            i + needle.len(),
        ) == needle
}

/// Substring search by character comparison.
pub fn str_contains(haystack: &str, needle: &str) -> (r: bool)
    ensures
        r == spec_str_contains(haystack@, needle@),
{
    let hlen = haystack.unicode_len();
    let nlen = needle.unicode_len();
    if nlen > hlen {
        return false;
    }
    let mut i: usize = 0;
    while i <= hlen - nlen
        invariant
            nlen <= hlen,
            hlen == haystack@.len(),
            nlen == needle@.len(),
            i <= hlen - nlen + 1,
            forall|k: int|
                0 <= k < i ==> #[trigger] haystack@.subrange(k, k + needle@.len() as int)
                    != needle@,
        decreases hlen - nlen - i + 1,
    {
        let mut j: usize = 0;
        let mut matched = true;
        while matched && j < nlen
            invariant
                i + nlen <= hlen,
                hlen == haystack@.len(),
                nlen == needle@.len(),
                j <= nlen,
                matched ==> forall|k: int| 0 <= k < j ==> haystack@[i + k] == needle@[k],
                !matched ==> exists|k: int| 0 <= k < nlen && haystack@[i + k] != needle@[k],
            decreases (if matched { 1int } else { 0int }), nlen - j,
        {
            if haystack.get_char(i + j) != needle.get_char(j) {
                matched = false;
            } else {
                j += 1;
            }
        }
        if matched {
            proof {
                assert(haystack@.subrange(i as int, i + needle@.len() as int) =~= needle@);
            }
            return true;
        }
        proof {
            let k = choose|k: int| 0 <= k < nlen && haystack@[i + k] != needle@[k];
            assert(haystack@.subrange(i as int, i + needle@.len() as int)[k] == haystack@[i + k]);
        }
        i += 1;
    }
    false
}

/// The character of one decimal digit.
pub open spec fn spec_digit(d: int) -> Seq<char> {
    if d == 0 {
        "0"@
    } else if d == 1 {
        "1"@
    } else if d == 2 {
        "2"@
    } else if d == 3 {
        "3"@
    } else if d == 4 {
        "4"@
    } else if d == 5 {
        "5"@
    } else if d == 6 {
        "6"@
    } else if d == 7 {
        "7"@
    } else if d == 8 {
        "8"@
    } else {
        "9"@
    }
}

/// Decimal representation of a non-negative integer, most significant
/// digit first, without leading zeros (except for the number zero).
pub open spec fn spec_decimal(n: nat) -> Seq<char>
    decreases n,
{
    if n < 10 {
        spec_digit(n as int)
    } else {
        spec_decimal(n / 10) + spec_digit((n % 10) as int)
    }
}

/// A fixed-point value held in tenths, rendered with one decimal place.
pub open spec fn spec_tenths_str(t: nat) -> Seq<char> {
    spec_decimal(t / 10) + "."@ + spec_digit((t % 10) as int)
}

/// A fixed-point value held in hundredths, rendered with two decimal places.
pub open spec fn spec_centi_str(c: nat) -> Seq<char> {
    spec_decimal(c / 100) + "."@ + spec_digit(((c / 10) % 10) as int) + spec_digit((c % 10) as int)
}

/// `s` repeated `n` times.
pub open spec fn spec_repeat(s: Seq<char>, n: nat) -> Seq<char>
    decreases n,
{
    if n == 0 {
        Seq::empty()
    } else {
        spec_repeat(s, (n - 1) as nat) + s
    }
}

fn digit_str(d: u64) -> (r: &'static str)
    requires
        d < 10,
    ensures
        r@ == spec_digit(d as int),
{
    if d == 0 {
        "0"
    } else if d == 1 {
        "1"
    } else if d == 2 {
        "2"
    } else if d == 3 {
        "3"
    } else if d == 4 {
        "4"
    } else if d == 5 {
        "5"
    } else if d == 6 {
        "6"
    } else if d == 7 {
        "7"
    } else if d == 8 {
        "8"
    } else {
        "9"
    }
}

/// Decimal string of a number.
pub fn u64_string(n: u64) -> (r: String)
    ensures
        r@ == spec_decimal(n as nat),
    decreases n,
{
    if n < 10 {
        String::from_str(digit_str(n))
    } else {
        let mut s = u64_string(n / 10);
        s.append(digit_str(n % 10));
        s
    }
}

/// Decimal string of a count.
pub fn usize_string(n: usize) -> (r: String)
    ensures
        r@ == spec_decimal(n as nat),
{
    u64_string(n as u64)
}

/// One-decimal string of a value held in tenths: `85` becomes `"8.5"`.
pub fn tenths_string(t: u64) -> (r: String)
    ensures
        r@ == spec_tenths_str(t as nat),
{
    let mut s = u64_string(t / 10);
    s.append(".");
    s.append(digit_str(t % 10));
    s
}

/// Two-decimal string of a value held in hundredths: `125` becomes `"1.25"`.
pub fn centi_string(c: u64) -> (r: String)
    ensures
        r@ == spec_centi_str(c as nat),
{
    let mut s = u64_string(c / 100);
    s.append(".");
    s.append(digit_str((c / 10) % 10));
    s.append(digit_str(c % 10));
    s
}

/// `s` repeated `n` times.
pub fn repeat_str(s: &str, n: usize) -> (r: String)
    ensures
        r@ == spec_repeat(s@, n as nat),
{
    let mut acc = String::new();
    let mut i: usize = 0;
    while i < n
        invariant
            i <= n,
            acc@ == spec_repeat(s@, i as nat),
        decreases n - i,
    {
        acc.append(s);
        i += 1;
    }
    acc
}

} // verus!
