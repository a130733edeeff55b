//! Parsing of user-facing device reference strings.
//!
//! A reference such as `physicaldrive0` or `\\.\HarddiskVolume1` names a
//! device class together with a decimal index.  The prefix is matched
//! case-insensitively anywhere in the string; the digits immediately after
//! its last occurrence form the index.

use vstd::prelude::*;

verus! {

/// Why a device reference string was rejected.
#[derive(Clone, Copy, PartialEq, Eq, Structural, Debug)]
pub enum ReferenceError {
    /// No recognized prefix occurs, or a non-digit follows the prefix.
    InvalidReference,
    /// The digit suffix is empty or its value does not fit an 8-bit index.
    IndexParse,
}

/// A parsed device reference: a device class plus the index inside it.
#[derive(Clone, Copy, PartialEq, Eq, Structural, Debug)]
pub enum DeviceReference {
    PhysicalDisk(u8),
    Volume(u8),
}

/// The code point of `c` with an ASCII upper-case letter folded to lower case.
pub open spec fn lower_code(c: char) -> int {
    if 65 <= c as int && c as int <= 90 {
        c as int + 32
    } else {
        c as int
    }
}

/// The prefix `p` occurs in `s` at position `i`, comparing ASCII
/// case-insensitively on the side of `s`.
pub open spec fn matches_prefix_at(s: Seq<char>, p: Seq<char>, i: int) -> bool {
    &&& 0 <= i
    &&& i + p.len() <= s.len()
    &&& forall|j: int| 0 <= j < p.len() ==> lower_code(#[trigger] s[i + j]) == p[j] as int
}

/// The largest position `<= i` at which `p` occurs in `s`, or `-1` if none.
pub open spec fn last_match_from(s: Seq<char>, p: Seq<char>, i: int) -> int
    decreases i + 1,
{
    if i < 0 {
        -1
    } else if matches_prefix_at(s, p, i) {
        i
    } else {
        last_match_from(s, p, i - 1)
    }
}

/// The position of the last occurrence of `p` in `s`, or `-1` if none.
pub open spec fn last_match(s: Seq<char>, p: Seq<char>) -> int {
    last_match_from(s, p, s.len() - p.len())
}

/// `last_match_from` returns `-1` or the greatest match position up to `i`,
/// and nothing above its result up to `i` matches.
pub proof fn lemma_last_match_from(s: Seq<char>, p: Seq<char>, i: int)
    ensures
        ({
            let m = last_match_from(s, p, i);
            &&& (m == -1 || (0 <= m <= i && matches_prefix_at(s, p, m)))
            &&& forall|k: int| m < k <= i ==> !matches_prefix_at(s, p, k)
        }),
    decreases i + 1,
{
    if i >= 0 && !matches_prefix_at(s, p, i) {
        lemma_last_match_from(s, p, i - 1);
    }
}

/// If `p` occurs anywhere in `s`, the last-occurrence search finds a match.
pub proof fn lemma_match_found(s: Seq<char>, p: Seq<char>, i: int)
    requires
        matches_prefix_at(s, p, i),
    ensures
        last_match(s, p) >= 0,
        matches_prefix_at(s, p, last_match(s, p)),
{
    lemma_last_match_from(s, p, s.len() - p.len());
}

/// If `p` occurs nowhere in `s`, the search reports `-1`.
pub proof fn lemma_no_match(s: Seq<char>, p: Seq<char>)
    requires
        forall|i: int| !matches_prefix_at(s, p, i),
    ensures
        last_match(s, p) == -1,
{
    lemma_last_match_from(s, p, s.len() - p.len());
}

/// `c` is one of the decimal digits `0` through `9`.
pub open spec fn is_decimal_digit(c: char) -> bool {
    48 <= c as int && c as int <= 57
}

/// Every character of `t` is a decimal digit.
pub open spec fn all_digits(t: Seq<char>) -> bool {
    forall|k: int| 0 <= k < t.len() ==> is_decimal_digit(#[trigger] t[k])
}

/// The value of `t` read as a decimal numeral.
pub open spec fn digits_value(t: Seq<char>) -> int
    decreases t.len(),
{
    if t.len() == 0 {
        0
    } else {
        digits_value(t.drop_last()) * 10 + (t.last() as int - 48)
    }
}

/// A digit string's value never goes down when digits are appended.
proof fn lemma_digits_value_nonneg(t: Seq<char>)
    requires
        all_digits(t),
    ensures
        digits_value(t) >= 0,
    decreases t.len(),
{
    if t.len() > 0 {
        assert(all_digits(t.drop_last()));
        lemma_digits_value_nonneg(t.drop_last());
    }
}

/// What the digit suffix after a recognized prefix parses to: the index if it
/// is a non-empty digit string whose value fits 8 bits, and the matching
/// error otherwise.
pub open spec fn suffix_digits_spec(t: Seq<char>) -> Result<u8, ReferenceError> {
    if !all_digits(t) {
        Err(ReferenceError::InvalidReference)
    } else if t.len() == 0 || digits_value(t) > 255 {
        Err(ReferenceError::IndexParse)
    } else {
        Ok(digits_value(t) as u8)
    }
}

/// Parses a whole suffix as a decimal 8-bit index.
///
/// Any non-digit character rejects the suffix outright; an empty suffix or a
/// value above 255 is a distinct parse failure, so callers can tell "no
/// index given" apart from "no prefix matched".
pub fn extract_suffix_digits(suffix: &str) -> (r: Result<u8, ReferenceError>)
    ensures
        r == suffix_digits_spec(suffix@),
{
    let n = suffix.unicode_len();
    let mut j: usize = 0;
    while j < n
        invariant
            n == suffix@.len(),
            j <= n,
            forall|k: int| 0 <= k < j ==> is_decimal_digit(#[trigger] suffix@[k]),
        decreases n - j,
    {
        let c = suffix.get_char(j);
        let code = c as u32;
        if code < 48 || code > 57 {
            assert(!is_decimal_digit(suffix@[j as int]));
            return Err(ReferenceError::InvalidReference);
        }
        j = j + 1;
    }
    assert(all_digits(suffix@));
    if n == 0 {
        return Err(ReferenceError::IndexParse);
    }
    let mut acc: u32 = 0;
    let mut k: usize = 0;
    while k < n
        invariant
            n == suffix@.len(),
            k <= n,
            all_digits(suffix@),
            acc <= 256,
            digits_value(suffix@.take(k as int)) <= 255 ==> acc == digits_value(
                suffix@.take(k as int),
            ),
            digits_value(suffix@.take(k as int)) > 255 ==> acc == 256,
        decreases n - k,
    {
        let c = suffix.get_char(k);
        assert(is_decimal_digit(suffix@[k as int]));
        let d = c as u32 - 48;
        let stepped: u32 = if acc > 255 {
            256
        } else {
            let t = acc * 10 + d;
            if t > 255 {
                256
            } else {
                t
            }
        };
        proof {
            let pre = suffix@.take(k as int);
            let post = suffix@.take(k as int + 1);
            assert(post.drop_last() =~= pre);
            assert(post.last() == suffix@[k as int]);
            assert(digits_value(post) == digits_value(pre) * 10 + (c as int - 48));
            assert(all_digits(pre));
            lemma_digits_value_nonneg(pre);
        }
        acc = stepped;
        k = k + 1;
    }
    assert(suffix@.take(n as int) =~= suffix@);
    if acc > 255 {
        Err(ReferenceError::IndexParse)
    } else {
        Ok(acc as u8)
    }
}

/// What parsing `s` against prefix `p` yields: the parsed digit suffix after
/// the last occurrence of `p`, or `InvalidReference` when `p` never occurs.
pub open spec fn prefixed_digits_spec(s: Seq<char>, p: Seq<char>) -> Result<u8, ReferenceError> {
    if last_match(s, p) == -1 {
        Err(ReferenceError::InvalidReference)
    } else {
        suffix_digits_spec(s.skip(last_match(s, p) + p.len()))
    }
}

/// Tests whether `p` occurs at position `i` of `s`, folding ASCII case on
/// the side of `s`.
fn prefix_matches_at(s: &str, p: &str, i: usize) -> (r: bool)
    requires
        s@.len() <= usize::MAX,
        i + p@.len() <= s@.len(),
    ensures
        r == matches_prefix_at(s@, p@, i as int),
{
    let plen = p.unicode_len();
    let mut j: usize = 0;
    while j < plen
        invariant
            plen == p@.len(),
            s@.len() <= usize::MAX,
            i + plen <= s@.len(),
            j <= plen,
            forall|k: int| 0 <= k < j ==> lower_code(#[trigger] s@[i + k]) == p@[k] as int,
        decreases plen - j,
    {
        let sc = s.get_char(i + j);
        let pc = p.get_char(j);
        let sc_code = sc as u32;
        let folded: u32 = if 65 <= sc_code && sc_code <= 90 {
            sc_code + 32
        } else {
            sc_code
        };
        if folded != pc as u32 {
            assert(lower_code(s@[i + j as int]) != p@[j as int] as int);
            return false;
        }
        j = j + 1;
    }
    true
}

/// Finds the last position at which `p` occurs in `s`, if any.
fn find_last_prefix(s: &str, p: &str) -> (r: Option<usize>)
    requires
        p@.len() >= 1,
    ensures
        match r {
            Some(i) => last_match(s@, p@) == i as int,
            None => last_match(s@, p@) == -1,
        },
{
    let n = s.unicode_len();
    let plen = p.unicode_len();
    if n < plen {
        assert(last_match(s@, p@) == -1);
        return None;
    }
    let mut i: usize = n - plen + 1;
    while i > 0
        invariant
            n == s@.len(),
            plen == p@.len(),
            plen >= 1,
            n >= plen,
            i <= n - plen + 1,
            last_match(s@, p@) == last_match_from(s@, p@, i as int - 1),
        decreases i,
    {
        if prefix_matches_at(s, p, i - 1) {
            return Some(i - 1);
        }
        i = i - 1;
    }
    None
}

/// Parses the digit suffix after the last occurrence of prefix `p` in `s`.
fn extract_prefixed_digits(s: &str, p: &str) -> (r: Result<u8, ReferenceError>)
    requires
        p@.len() >= 1,
    ensures
        r == prefixed_digits_spec(s@, p@),
{
    match find_last_prefix(s, p) {
        Some(i) => {
            proof {
                lemma_last_match_from(s@, p@, s@.len() - p@.len());
            }
            let n = s.unicode_len();
            let plen = p.unicode_len();
            assert(i + plen <= n);
            let suffix = s.substring_char(i + plen, n);
            assert(suffix@ =~= s@.skip(i + p@.len()));
            extract_suffix_digits(suffix)
        },
        None => Err(ReferenceError::InvalidReference),
    }
}

/// Extracts the physical-disk index from a reference string, accepting only
/// an all-digit suffix after the last occurrence of the physical-disk prefix.
pub fn extract_physical_drive_digits(s: &str) -> (r: Result<u8, ReferenceError>)
    ensures
        r == prefixed_digits_spec(s@, physical_prefix()),
{
    proof {
        reveal_strlit("physicaldrive");
    }
    extract_prefixed_digits(s, "physicaldrive")
}

/// Extracts the volume index from a reference string, accepting only an
/// all-digit suffix after the last occurrence of the volume prefix.
pub fn extract_harddiskvolume_digits(s: &str) -> (r: Result<u8, ReferenceError>)
    ensures
        r == prefixed_digits_spec(s@, volume_prefix()),
{
    proof {
        reveal_strlit("harddiskvolume");
    }
    extract_prefixed_digits(s, "harddiskvolume")
}

/// The recognized physical-disk prefix, in lower case.
pub open spec fn physical_prefix() -> Seq<char> {
    "physicaldrive"@
}

/// The recognized volume prefix, in lower case.
pub open spec fn volume_prefix() -> Seq<char> {
    "harddiskvolume"@
}

/// What parsing a full reference string yields: the physical-disk rule when
/// that prefix occurs anywhere, otherwise the volume rule, otherwise a
/// rejection.
pub open spec fn parse_spec(s: Seq<char>) -> Result<DeviceReference, ReferenceError> {
    if last_match(s, physical_prefix()) >= 0 {
        match prefixed_digits_spec(s, physical_prefix()) {
            Ok(n) => Ok(DeviceReference::PhysicalDisk(n)),
            Err(e) => Err(e),
        }
    } else if last_match(s, volume_prefix()) >= 0 {
        match prefixed_digits_spec(s, volume_prefix()) {
            Ok(n) => Ok(DeviceReference::Volume(n)),
            Err(e) => Err(e),
        }
    } else {
        Err(ReferenceError::InvalidReference)
    }
}

/// Parses a device reference string into a device class and index.
///
/// A string containing the physical-disk prefix is judged by the
/// physical-disk rule alone; only a string without it falls through to the
/// volume rule; a string with neither prefix is invalid.
pub fn parse(reference: &str) -> (r: Result<DeviceReference, ReferenceError>)
    ensures
        r == parse_spec(reference@),
{
    proof {
        reveal_strlit("physicaldrive");
        reveal_strlit("harddiskvolume");
    }
    if find_last_prefix(reference, "physicaldrive").is_some() {
        match extract_prefixed_digits(reference, "physicaldrive") {
            Ok(n) => Ok(DeviceReference::PhysicalDisk(n)),
            Err(e) => Err(e),
        }
    } else if find_last_prefix(reference, "harddiskvolume").is_some() {
        match extract_prefixed_digits(reference, "harddiskvolume") {
            Ok(n) => Ok(DeviceReference::Volume(n)),
            Err(e) => Err(e),
        }
    } else {
        Err(ReferenceError::InvalidReference)
    }
}

/// Law: a string containing the physical-disk prefix whose suffix after the
/// last occurrence is a non-empty digit string with a value that fits 8 bits
/// parses to that physical-disk index, whatever the case of the letters.
pub proof fn lemma_parse_physical_digits(s: Seq<char>, i: int, n: u8)
    requires
        matches_prefix_at(s, physical_prefix(), i),
        all_digits(s.skip(last_match(s, physical_prefix()) + physical_prefix().len())),
        s.skip(last_match(s, physical_prefix()) + physical_prefix().len()).len() > 0,
        digits_value(s.skip(last_match(s, physical_prefix()) + physical_prefix().len())) == n,
    ensures
        parse_spec(s) == Ok::<DeviceReference, ReferenceError>(DeviceReference::PhysicalDisk(n)),
{
    lemma_match_found(s, physical_prefix(), i);
}

/// Law: a string containing the physical-disk prefix but with a non-digit
/// anywhere in the suffix after its last occurrence is rejected as an
/// invalid reference.
pub proof fn lemma_parse_rejects_nondigit(s: Seq<char>, i: int)
    requires
        matches_prefix_at(s, physical_prefix(), i),
        !all_digits(s.skip(last_match(s, physical_prefix()) + physical_prefix().len())),
    ensures
        parse_spec(s) == Err::<DeviceReference, ReferenceError>(ReferenceError::InvalidReference),
{
    lemma_match_found(s, physical_prefix(), i);
}

/// Law: a string in which neither the physical-disk prefix nor the volume
/// prefix occurs is rejected as an invalid reference.
pub proof fn lemma_parse_unmatched(s: Seq<char>)
    requires
        forall|i: int| !matches_prefix_at(s, physical_prefix(), i),
        forall|i: int| !matches_prefix_at(s, volume_prefix(), i),
    ensures
        parse_spec(s) == Err::<DeviceReference, ReferenceError>(ReferenceError::InvalidReference),
{
    lemma_no_match(s, physical_prefix());
    lemma_no_match(s, volume_prefix());
}

} // verus!
