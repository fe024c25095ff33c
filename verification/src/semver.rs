//! Semantic versions for the instance compatibility check: parsing
//! `major.minor.patch[-prerelease][+build]` and the ordering the client
//! uses to warn when the instance runs a newer version than it does.
//!
//! The numeric fields carry no leading zeroes and must fit in 16 bits; a
//! prerelease is a dot-separated list of identifiers over `[0-9A-Za-z-]`,
//! a purely numeric identifier again without leading zeroes; build metadata
//! is checked and discarded. Versions are ordered by the numeric triple
//! first and the bare prerelease text last.

use vstd::prelude::*;
use vstd::string::StrSliceExecFns;

verus! {

pub open spec fn is_digit_char(c: char) -> bool {
    '0' <= c && c <= '9'
}

pub open spec fn is_ident_char(c: char) -> bool {
    is_digit_char(c) || ('a' <= c && c <= 'z') || ('A' <= c && c <= 'Z') || c == '-'
}

pub open spec fn digit_val(c: char) -> int {
    c as int - '0' as int
}

/// The value of a digit string, most significant digit first.
pub open spec fn digits_value(s: Seq<char>) -> int
    decreases s.len(),
{
    if s.len() == 0 {
        0
    } else {
        digits_value(s.drop_last()) * 10 + digit_val(s.last())
    }
}

/// End of the run of digits starting at `i`.
pub open spec fn digits_end(s: Seq<char>, i: int) -> int
    decreases s.len() - i,
{
    if i < 0 || i >= s.len() || !is_digit_char(s[i]) {
        i
    } else {
        digits_end(s, i + 1)
    }
}

/// Position of the first `.` at or after `i`, or the length.
pub open spec fn seg_end(s: Seq<char>, i: int) -> int
    decreases s.len() - i,
{
    if i < 0 || i >= s.len() {
        s.len() as int
    } else if s[i] == '.' {
        i
    } else {
        seg_end(s, i + 1)
    }
}

/// Position of the first `+` at or after `i`, or the length.
pub open spec fn plus_pos(s: Seq<char>, i: int) -> int
    decreases s.len() - i,
{
    if i < 0 || i >= s.len() {
        s.len() as int
    } else if s[i] == '+' {
        i
    } else {
        plus_pos(s, i + 1)
    }
}

pub open spec fn all_ident_chars(s: Seq<char>) -> bool {
    forall|j: int| 0 <= j < s.len() ==> is_ident_char(#[trigger] s[j])
}

pub open spec fn all_digit_chars(s: Seq<char>) -> bool {
    forall|j: int| 0 <= j < s.len() ==> is_digit_char(#[trigger] s[j])
}

/// A numeric version field starts at `i`: at least one digit, no leading
/// zero, at most five digits, and a value within 16 bits.
pub open spec fn valid_number_at(s: Seq<char>, i: int) -> bool {
    let e = digits_end(s, i);
    &&& e > i
    &&& (s[i] != '0' || e == i + 1)
    &&& e - i <= 5
    &&& digits_value(s.subrange(i, e)) <= 65535
}

/// The value of the numeric field at `i`.
pub open spec fn number_at(s: Seq<char>, i: int) -> int {
    digits_value(s.subrange(i, digits_end(s, i)))
}

/// One prerelease identifier: nonempty, over the identifier alphabet, and a
/// purely numeric one carries no leading zero.
pub open spec fn valid_pre_ident(seg: Seq<char>) -> bool {
    &&& seg.len() > 0
    &&& all_ident_chars(seg)
    &&& (all_digit_chars(seg) ==> (seg[0] != '0' || seg.len() == 1))
}

/// One build identifier: nonempty, over the identifier alphabet.
pub open spec fn valid_build_ident(seg: Seq<char>) -> bool {
    seg.len() > 0 && all_ident_chars(seg)
}

/// `s[i..]` is a dot-separated list of valid prerelease identifiers.
pub open spec fn valid_pre_from(s: Seq<char>, i: int) -> bool
    decreases s.len() - i,
{
    let e = seg_end(s, i);
    if e <= i || e > s.len() {
        false
    } else {
        valid_pre_ident(s.subrange(i, e)) && (e == s.len() || valid_pre_from(s, e + 1))
    }
}

/// `s[i..]` is a dot-separated list of valid build identifiers.
pub open spec fn valid_build_from(s: Seq<char>, i: int) -> bool
    decreases s.len() - i,
{
    let e = seg_end(s, i);
    if e <= i || e > s.len() {
        false
    } else {
        valid_build_ident(s.subrange(i, e)) && (e == s.len() || valid_build_from(s, e + 1))
    }
}

/// The parsed shape of a version string: the numeric triple and the bare
/// prerelease text, or `None` when the string is not a version the client
/// accepts.
pub open spec fn spec_parse_version(s: Seq<char>) -> Option<(int, int, int, Seq<char>)> {
    if !valid_number_at(s, 0) {
        None
    } else {
        let e1 = digits_end(s, 0);
        if e1 >= s.len() || s[e1] != '.' || !valid_number_at(s, e1 + 1) {
            None
        } else {
            let e2 = digits_end(s, e1 + 1);
            if e2 >= s.len() || s[e2] != '.' || !valid_number_at(s, e2 + 1) {
                None
            } else {
                let e3 = digits_end(s, e2 + 1);
                let major = number_at(s, 0);
                let minor = number_at(s, e1 + 1);
                let patch = number_at(s, e2 + 1);
                if e3 == s.len() {
                    Some((major, minor, patch, Seq::empty()))
                } else if s[e3] == '+' {
                    if valid_build_from(s.subrange(e3 + 1, s.len() as int), 0) {
                        Some((major, minor, patch, Seq::empty()))
                    } else {
                        None
                    }
                } else if s[e3] == '-' {
                    let p = plus_pos(s, e3 + 1);
                    let pre = s.subrange(e3 + 1, p);
                    if !valid_pre_from(pre, 0) {
                        None
                    } else if p == s.len() {
                        Some((major, minor, patch, pre))
                    } else if valid_build_from(s.subrange(p + 1, s.len() as int), 0) {
                        Some((major, minor, patch, pre))
                    } else {
                        None
                    }
                } else {
                    None
                }
            }
        }
    }
}

/// Lexicographic order on text from position `i`: a proper prefix comes
/// first, otherwise the first differing character decides.
pub open spec fn seq_lt_from(a: Seq<char>, b: Seq<char>, i: int) -> bool
    decreases b.len() - i,
{
    if i >= b.len() {
        false
    } else if i >= a.len() {
        true
    } else if a[i] != b[i] {
        a[i] < b[i]
    } else {
        seq_lt_from(a, b, i + 1)
    }
}

pub open spec fn seq_lt(a: Seq<char>, b: Seq<char>) -> bool {
    seq_lt_from(a, b, 0)
}

/// The order of the compatibility check: the numeric triple first, then the
/// bare prerelease text — so a prerelease counts as newer than its own bare
/// release, the empty text coming first.
pub open spec fn spec_version_gt(
    a: (int, int, int, Seq<char>),
    b: (int, int, int, Seq<char>),
) -> bool {
    if a.0 != b.0 {
        a.0 > b.0
    } else if a.1 != b.1 {
        a.1 > b.1
    } else if a.2 != b.2 {
        a.2 > b.2
    } else {
        seq_lt(b.3, a.3)
    }
}

/// A parsed version.
#[derive(Clone, Debug, PartialEq, Eq)]
pub struct Version {
    pub major: u16,
    pub minor: u16,
    pub patch: u16,
    pub prerelease: String,
}

impl Version {
    /// The components this version stands for.
    pub open spec fn parts(&self) -> (int, int, int, Seq<char>) {
        (self.major as int, self.minor as int, self.patch as int, self.prerelease@)
    }
}

/// Outcome of holding the client's own version against the instance's.
#[derive(Clone, Copy, Debug, PartialEq, Eq)]
pub enum VersionCheck {
    /// The client's own version string is not a valid version.
    CurrentInvalid,
    /// The instance's version string is not a valid version.
    InstanceInvalid,
    /// The instance runs a newer version: warn before connecting.
    InstanceNewer,
    /// No warning needed.
    UpToDate,
}

fn is_digit_exec(c: char) -> (r: bool)
    ensures
        r == is_digit_char(c),
{
    c >= '0' && c <= '9'
}

fn is_ident_exec(c: char) -> (r: bool)
    ensures
        r == is_ident_char(c),
{
    is_digit_exec(c) || (c >= 'a' && c <= 'z') || (c >= 'A' && c <= 'Z') || c == '-'
}

/// Scans to the end of the digit run starting at `from`.
fn scan_digits(s: &str, from: usize, len: usize) -> (r: usize)
    requires
        len == s@.len(),
        from <= len,
    ensures
        r == digits_end(s@, from as int),
        from <= r <= len,
{
    let mut j = from;
    while j < len
        invariant
            from <= j <= len,
            len == s@.len(),
            digits_end(s@, from as int) == digits_end(s@, j as int),
        decreases len - j,
    {
        let c = s.get_char(j);
        if !is_digit_exec(c) {
            return j;
        }
        j += 1;
    }
    j
}

/// Scans to the first `.` at or after `from`.
fn scan_seg_end(s: &str, from: usize, len: usize) -> (r: usize)
    requires
        len == s@.len(),
        from <= len,
    ensures
        r == seg_end(s@, from as int),
        from <= r <= len,
{
    let mut j = from;
    while j < len
        invariant
            from <= j <= len,
            len == s@.len(),
            seg_end(s@, from as int) == seg_end(s@, j as int),
        decreases len - j,
    {
        let c = s.get_char(j);
        if c == '.' {
            return j;
        }
        j += 1;
    }
    j
}

/// Scans to the first `+` at or after `from`.
fn scan_plus(s: &str, from: usize, len: usize) -> (r: usize)
    requires
        len == s@.len(),
        from <= len,
    ensures
        r == plus_pos(s@, from as int),
        from <= r <= len,
{
    let mut j = from;
    while j < len
        invariant
            from <= j <= len,
            len == s@.len(),
            plus_pos(s@, from as int) == plus_pos(s@, j as int),
        decreases len - j,
    {
        let c = s.get_char(j);
        if c == '+' {
            return j;
        }
        j += 1;
    }
    j
}

/// Every position of the digit run before its end holds a digit.
proof fn lemma_digits_run(s: Seq<char>, i: int)
    requires
        0 <= i <= s.len(),
    ensures
        i <= digits_end(s, i) <= s.len(),
        forall|k: int| i <= k < digits_end(s, i) ==> is_digit_char(#[trigger] s[k]),
    decreases s.len() - i,
{
    if i < s.len() && is_digit_char(s[i]) {
        lemma_digits_run(s, i + 1);
    }
}

/// A digit string's value only grows as it extends: the value of the prefix
/// `[start, j)` is at most the value of `[start, e)`, and both are
/// nonnegative.
proof fn lemma_digits_nonneg(s: Seq<char>)
    requires
        all_digit_chars(s),
    ensures
        digits_value(s) >= 0,
    decreases s.len(),
{
    if s.len() > 0 {
        assert(all_digit_chars(s.drop_last())) by {
            assert(forall|j: int|
                0 <= j < s.len() - 1 ==> s.drop_last()[j] == #[trigger] s[j]);
        }
        lemma_digits_nonneg(s.drop_last());
    }
}

proof fn lemma_digits_prefix_le(s: Seq<char>, start: int, j: int, e: int)
    requires
        0 <= start <= j <= e <= s.len(),
        forall|k: int| start <= k < e ==> is_digit_char(#[trigger] s[k]),
    ensures
        digits_value(s.subrange(start, j)) <= digits_value(s.subrange(start, e)),
        digits_value(s.subrange(start, j)) >= 0,
    decreases e - j,
{
    assert(all_digit_chars(s.subrange(start, j)));
    lemma_digits_nonneg(s.subrange(start, j));
    if j < e {
        lemma_digits_prefix_le(s, start, j + 1, e);
        let sub1 = s.subrange(start, j + 1);
        assert(sub1.drop_last() =~= s.subrange(start, j));
        assert(digits_value(sub1) == digits_value(s.subrange(start, j)) * 10 + digit_val(
            s[j],
        ));
    }
}

/// Checks one prerelease identifier, `p[i..e)`.
fn check_pre_ident(p: &str, i: usize, e: usize) -> (r: bool)
    requires
        i <= e <= p@.len(),
    ensures
        r == valid_pre_ident(p@.subrange(i as int, e as int)),
{
    if i == e {
        return false;
    }
    let mut k = i;
    let mut digits_only = true;
    while k < e
        invariant
            i <= k <= e <= p@.len(),
            forall|j: int| i <= j < k ==> is_ident_char(#[trigger] p@[j]),
            digits_only ==> forall|j: int| i <= j < k ==> is_digit_char(#[trigger] p@[j]),
            !digits_only ==> exists|j: int| i <= j < k && !is_digit_char(#[trigger] p@[j]),
        decreases e - k,
    {
        let c = p.get_char(k);
        if !is_ident_exec(c) {
            proof {
                assert(p@.subrange(i as int, e as int)[k as int - i as int] == p@[k as int]);
            }
            return false;
        }
        if !is_digit_exec(c) {
            digits_only = false;
        }
        k += 1;
    }
    proof {
        let sub = p@.subrange(i as int, e as int);
        assert(all_ident_chars(sub)) by {
            assert(forall|j: int| 0 <= j < sub.len() ==> sub[j] == #[trigger] p@[i + j]);
        }
        if digits_only {
            assert(all_digit_chars(sub)) by {
                assert(forall|j: int| 0 <= j < sub.len() ==> sub[j] == #[trigger] p@[i + j]);
            }
        } else {
            let j = choose|j: int| i <= j < e && !is_digit_char(#[trigger] p@[j]);
            assert(sub[j - i] == p@[j]);
            assert(!all_digit_chars(sub));
        }
        assert(sub[0] == p@[i as int]);
    }
    if digits_only && e - i > 1 {
        let c0 = p.get_char(i);
        c0 != '0'
    } else {
        true
    }
}

/// Checks one build identifier, `p[i..e)`.
fn check_build_ident(p: &str, i: usize, e: usize) -> (r: bool)
    requires
        i <= e <= p@.len(),
    ensures
        r == valid_build_ident(p@.subrange(i as int, e as int)),
{
    if i == e {
        return false;
    }
    let mut k = i;
    while k < e
        invariant
            i <= k <= e <= p@.len(),
            forall|j: int| i <= j < k ==> is_ident_char(#[trigger] p@[j]),
        decreases e - k,
    {
        let c = p.get_char(k);
        if !is_ident_exec(c) {
            proof {
                assert(p@.subrange(i as int, e as int)[k as int - i as int] == p@[k as int]);
            }
            return false;
        }
        k += 1;
    }
    proof {
        let sub = p@.subrange(i as int, e as int);
        assert(all_ident_chars(sub)) by {
            assert(forall|j: int| 0 <= j < sub.len() ==> sub[j] == #[trigger] p@[i + j]);
        }
    }
    true
}

/// Checks a whole prerelease text.
fn check_pre(p: &str) -> (r: bool)
    ensures
        r == valid_pre_from(p@, 0),
{
    let len = p.unicode_len();
    let mut i: usize = 0;
    loop
        invariant
            i <= len,
            len == p@.len(),
            valid_pre_from(p@, 0) == valid_pre_from(p@, i as int),
        decreases len - i,
    {
        let e = scan_seg_end(p, i, len);
        if e == i {
            return false;
        }
        if !check_pre_ident(p, i, e) {
            return false;
        }
        if e == len {
            return true;
        }
        i = e + 1;
    }
}

/// Checks a whole build-metadata text.
fn check_build(p: &str) -> (r: bool)
    ensures
        r == valid_build_from(p@, 0),
{
    let len = p.unicode_len();
    let mut i: usize = 0;
    loop
        invariant
            i <= len,
            len == p@.len(),
            valid_build_from(p@, 0) == valid_build_from(p@, i as int),
        decreases len - i,
    {
        let e = scan_seg_end(p, i, len);
        if e == i {
            return false;
        }
        if !check_build_ident(p, i, e) {
            return false;
        }
        if e == len {
            return true;
        }
        i = e + 1;
    }
}

/// Checks and reads one numeric field starting at `from`: run length,
/// leading zero and 16-bit bound.
fn parse_number_field(s: &str, from: usize, len: usize) -> (r: Option<(u16, usize)>)
    requires
        len == s@.len(),
        from <= len,
    ensures
        match r {
            Some((v, e)) => {
                &&& valid_number_at(s@, from as int)
                &&& v as int == number_at(s@, from as int)
                &&& e as int == digits_end(s@, from as int)
                &&& from < e <= len
            },
            None => !valid_number_at(s@, from as int),
        },
{
    let e = scan_digits(s, from, len);
    if e == from {
        return None;
    }
    if e - from > 5 {
        return None;
    }
    let c0 = s.get_char(from);
    if c0 == '0' && e - from > 1 {
        return None;
    }
    // the value fits u32: at most five digits
    let v = read_number_unchecked(s, from, e);
    if v > 65535 {
        return None;
    }
    proof {
        assert(valid_number_at(s@, from as int));
    }
    Some((v as u16, e))
}

/// Reads the value of the digit run `[start, end)` into 32 bits; sound
/// because the run holds at most five digits.
fn read_number_unchecked(s: &str, start: usize, end: usize) -> (r: u32)
    requires
        start < end <= s@.len(),
        end as int == digits_end(s@, start as int),
        end - start <= 5,
    ensures
        r as int == digits_value(s@.subrange(start as int, end as int)),
{
    proof {
        lemma_digits_run(s@, start as int);
    }
    let mut acc: u32 = 0;
    let mut j = start;
    while j < end
        invariant
            start <= j <= end <= s@.len(),
            end - start <= 5,
            forall|k: int| start <= k < end ==> is_digit_char(#[trigger] s@[k]),
            acc as int == digits_value(s@.subrange(start as int, j as int)),
            acc < pow10((j - start) as nat),
        decreases end - j,
    {
        let c = s.get_char(j);
        let d: u32 = (c as u32) - ('0' as u32);
        proof {
            let ghost sub1 = s@.subrange(start as int, j + 1);
            assert(sub1.drop_last() =~= s@.subrange(start as int, j as int));
            assert(sub1.last() == s@[j as int]);
            lemma_pow10_le_100000((j - start) as nat);
        }
        acc = acc * 10 + d;
        j += 1;
    }
    acc
}

/// Ten to the `n`.
pub open spec fn pow10(n: nat) -> int
    decreases n,
{
    if n == 0 {
        1
    } else {
        10 * pow10((n - 1) as nat)
    }
}

proof fn lemma_pow10_le_100000(n: nat)
    requires
        n <= 4,
    ensures
        pow10(n) <= 10000,
        pow10(n + 1) == 10 * pow10(n),
{
    assert(pow10(0) == 1);
    assert(pow10(1) == 10);
    assert(pow10(2) == 100);
    assert(pow10(3) == 1000);
    assert(pow10(4) == 10000);
}

/// Parses a version string.
pub fn parse_version(s: &str) -> (r: Option<Version>)
    ensures
        match r {
            Some(v) => spec_parse_version(s@) == Some(v.parts()),
            None => spec_parse_version(s@) is None,
        },
{
    let len = s.unicode_len();
    let (major, e1) = match parse_number_field(s, 0, len) {
        Some(p) => p,
        None => {
            return None;
        },
    };
    if e1 == len || s.get_char(e1) != '.' {
        return None;
    }
    let (minor, e2) = match parse_number_field(s, e1 + 1, len) {
        Some(p) => p,
        None => {
            return None;
        },
    };
    if e2 == len || s.get_char(e2) != '.' {
        return None;
    }
    let (patch, e3) = match parse_number_field(s, e2 + 1, len) {
        Some(p) => p,
        None => {
            return None;
        },
    };
    if e3 == len {
        return Some(Version { major, minor, patch, prerelease: String::new() });
    }
    let c3 = s.get_char(e3);
    if c3 == '+' {
        let build = s.substring_char(e3 + 1, len);
        if check_build(build) {
            return Some(Version { major, minor, patch, prerelease: String::new() });
        }
        return None;
    }
    if c3 == '-' {
        let p = scan_plus(s, e3 + 1, len);
        let pre = s.substring_char(e3 + 1, p);
        if !check_pre(pre) {
            return None;
        }
        let prerelease = pre.to_owned();
        if p == len {
            return Some(Version { major, minor, patch, prerelease });
        }
        let build = s.substring_char(p + 1, len);
        if check_build(build) {
            return Some(Version { major, minor, patch, prerelease });
        }
        return None;
    }
    None
}

/// Lexicographic comparison of two strings.
fn str_lt(a: &str, b: &str) -> (r: bool)
    ensures
        r == seq_lt(a@, b@),
{
    let alen = a.unicode_len();
    let blen = b.unicode_len();
    let mut i: usize = 0;
    loop
        invariant
            i <= alen,
            i <= blen,
            alen == a@.len(),
            blen == b@.len(),
            seq_lt(a@, b@) == seq_lt_from(a@, b@, i as int),
        decreases blen - i + 1,
    {
        if i >= blen {
            return false;
        }
        if i >= alen {
            return true;
        }
        let ca = a.get_char(i);
        let cb = b.get_char(i);
        if ca != cb {
            return ca < cb;
        }
        i += 1;
    }
}

/// Whether `a` is a newer version than `b`, in the order of the
/// compatibility check.
pub fn version_newer(a: &Version, b: &Version) -> (r: bool)
    ensures
        r == spec_version_gt(a.parts(), b.parts()),
{
    if a.major != b.major {
        a.major > b.major
    } else if a.minor != b.minor {
        a.minor > b.minor
    } else if a.patch != b.patch {
        a.patch > b.patch
    } else {
        str_lt(b.prerelease.as_str(), a.prerelease.as_str())
    }
}

/// Holds the client's own version against the instance's: either string may
/// be rejected as invalid, and otherwise the check says whether the
/// instance is newer, which is the caller's cue to display its warning.
pub fn check_version(current: &str, instance: &str) -> (r: VersionCheck)
    ensures
        match spec_parse_version(current@) {
            None => r == VersionCheck::CurrentInvalid,
            Some(cur) => match spec_parse_version(instance@) {
                None => r == VersionCheck::InstanceInvalid,
                Some(inst) => r == if spec_version_gt(inst, cur) {
                    VersionCheck::InstanceNewer
                } else {
                    VersionCheck::UpToDate
                },
            },
        },
{
    let cur = match parse_version(current) {
        Some(v) => v,
        None => {
            return VersionCheck::CurrentInvalid;
        },
    };
    let inst = match parse_version(instance) {
        Some(v) => v,
        None => {
            return VersionCheck::InstanceInvalid;
        },
    };
    if version_newer(&inst, &cur) {
        VersionCheck::InstanceNewer
    } else {
        VersionCheck::UpToDate
    }
}

} // verus!
