//! Verified string helpers: character-wise equality, substring search, and
//! decimal formatting of counters for the text of system notices.

use vstd::prelude::*;
use vstd::string::StrSliceExecFns;

verus! {

/// Character-wise equality of two string slices.
pub fn str_eq(a: &str, b: &str) -> (r: bool)
    ensures
        r == (a@ == b@),
{
    let alen = a.unicode_len();
    let blen = b.unicode_len();
    if alen != blen {
        return false;
    }
    let mut i: usize = 0;
    while i < alen
        invariant
            alen == a@.len(),
            alen == b@.len(),
            i <= alen,
            forall|j: int| 0 <= j < i ==> a@[j] == b@[j],
        decreases alen - i,
    {
        if a.get_char(i) != b.get_char(i) {
            return false;
        }
        i += 1;
    }
    proof {
        assert(a@ =~= b@);
    }
    true
}

/// `needle` occurs contiguously somewhere in `haystack`.
pub open spec fn contains_seq(haystack: Seq<char>, needle: Seq<char>) -> bool {
    exists|i: int|
        0 <= i <= haystack.len() - needle.len() && #[trigger] haystack.subrange(
            i,
            i + needle.len(),
        ) == needle
}

/// Whether `needle` matches `haystack` starting at position `at`.
fn match_at(haystack: &str, needle: &str, at: usize, hlen: usize, nlen: usize) -> (r: bool)
    requires
        hlen == haystack@.len(),
        nlen == needle@.len(),
        at + nlen <= hlen,
    ensures
        r == (haystack@.subrange(at as int, at as int + needle@.len()) == needle@),
{
    let mut k: usize = 0;
    while k < nlen
        invariant
            hlen == haystack@.len(),
            nlen == needle@.len(),
            at + nlen <= hlen,
            k <= nlen,
            forall|j: int| 0 <= j < k ==> haystack@[at + j] == needle@[j],
        decreases nlen - k,
    {
        if haystack.get_char(at + k) != needle.get_char(k) {
            proof {
                assert(haystack@.subrange(at as int, at as int + needle@.len())[k as int]
                    == haystack@[at + k]);
            }
            return false;
        }
        k += 1;
    }
    proof {
        assert(haystack@.subrange(at as int, at as int + needle@.len()) =~= needle@);
    }
    true
}

/// Substring search: whether `needle` occurs anywhere in `haystack`.
pub fn str_contains(haystack: &str, needle: &str) -> (r: bool)
    ensures
        r == contains_seq(haystack@, needle@),
{
    let hlen = haystack.unicode_len();
    let nlen = needle.unicode_len();
    if nlen > hlen {
        return false;
    }
    if nlen == 0 {
        proof {
            assert(haystack@.subrange(0, 0 + needle@.len() as int) =~= needle@);
        }
        return true;
    }
    let mut i: usize = 0;
    loop
        invariant
            hlen == haystack@.len(),
            nlen == needle@.len(),
            0 < nlen <= hlen,
            i <= hlen - nlen + 1,
            forall|j: int|
                0 <= j < i ==> #[trigger] haystack@.subrange(j, j + needle@.len()) != needle@,
        decreases hlen - nlen - i + 1,
    {
        if i > hlen - nlen {
            return false;
        }
        if match_at(haystack, needle, i, hlen, nlen) {
            return true;
        }
        i += 1;
    }
}

/// The decimal digit characters, in order.
pub open spec fn spec_digit_char(d: nat) -> char {
    if d == 0 {
        '0'
    } else if d == 1 {
        '1'
    } else if d == 2 {
        '2'
    } else if d == 3 {
        '3'
    } else if d == 4 {
        '4'
    } else if d == 5 {
        '5'
    } else if d == 6 {
        '6'
    } else if d == 7 {
        '7'
    } else if d == 8 {
        '8'
    } else {
        '9'
    }
}

/// The decimal rendering of a natural number, most significant digit first,
/// with no leading zeroes (a single `'0'` for zero).
pub open spec fn spec_decimal(n: nat) -> Seq<char>
    decreases n,
{
    if n < 10 {
        seq![spec_digit_char(n)]
    } else {
        spec_decimal(n / 10) + seq![spec_digit_char(n % 10)]
    }
}

/// One decimal digit as a string slice.
fn digit_str(d: u64) -> (r: &'static str)
    requires
        d < 10,
    ensures
        r@ == seq![spec_digit_char(d as nat)],
{
    proof {
        reveal_strlit("0");
        reveal_strlit("1");
        reveal_strlit("2");
        reveal_strlit("3");
        reveal_strlit("4");
        reveal_strlit("5");
        reveal_strlit("6");
        reveal_strlit("7");
        reveal_strlit("8");
        reveal_strlit("9");
    }
    let r: &'static str = if d == 0 {
        "0"
    } else if d == 1 {
        "1"
    } else if d == 2 {
        "2"
    } else if d == 3 {
        "3"
    } else if d == 4 {
        "4"
    } else if d == 5 {
        "5"
    } else if d == 6 {
        "6"
    } else if d == 7 {
        "7"
    } else if d == 8 {
        "8"
    } else {
        "9"
    };
    proof {
        assert(r@ =~= seq![spec_digit_char(d as nat)]);
    }
    r
}

/// Renders a counter in decimal, as the system notices display it.
pub fn u64_to_string(n: u64) -> (r: String)
    ensures
        r@ == spec_decimal(n as nat),
    decreases n,
{
    if n < 10 {
        let mut s = String::new();
        s.append(digit_str(n));
        proof {
            assert(s@ =~= spec_decimal(n as nat));
        }
        s
    } else {
        let mut s = u64_to_string(n / 10);
        s.append(digit_str(n % 10));
        s
    }
}

} // verus!
