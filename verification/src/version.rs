//! Addon version handling.
//!
//! The host displays an addon version of four 16-bit parts: major, minor,
//! build and revision. The first three come from a dotted version string;
//! the revision encodes the pre-release tag (such as `alpha.1`) so that
//! pre-releases order below the stable release, which uses a negative
//! revision that the host hides.

use vstd::prelude::*;

use crate::addon::AddonVersion;

verus! {

/// Revision for stable versions.
///
/// Negative values hide the revision number in the host's addon window.
pub const STABLE_REVISION: i16 = -1;

/// True for the ten decimal digit characters.
pub open spec fn is_decimal_digit(c: char) -> bool {
    48 <= c as u32 <= 57
}

/// Numeric value of a decimal digit character.
pub open spec fn digit_value(c: char) -> int {
    c as u32 - 48
}

/// True when every character of the string is a decimal digit.
pub open spec fn all_decimal_digits(s: Seq<char>) -> bool {
    forall|i: int| 0 <= i < s.len() ==> is_decimal_digit(#[trigger] s[i])
}

/// Numeric value of a string of decimal digits, most significant first.
pub open spec fn decimal_value(s: Seq<char>) -> int
    decreases s.len(),
{
    if s.len() == 0 {
        0
    } else {
        decimal_value(s.drop_last()) * 10 + digit_value(s.last())
    }
}

/// The digits of an unsigned decimal string: a leading `+` is allowed and
/// skipped, as in the standard unsigned integer parsers.
pub open spec fn unsigned_digits(s: Seq<char>) -> Seq<char> {
    if s.len() > 0 && s[0] == '+' {
        s.skip(1)
    } else {
        s
    }
}

/// True when the string parses as an 8-bit unsigned decimal number.
pub open spec fn is_u8_decimal(s: Seq<char>) -> bool {
    let digits = unsigned_digits(s);
    digits.len() > 0 && all_decimal_digits(digits) && decimal_value(digits) <= 255
}

/// Value of an 8-bit unsigned decimal string.
pub open spec fn u8_decimal_value(s: Seq<char>) -> int {
    decimal_value(unsigned_digits(s))
}

/// The digits of a signed decimal string: a leading `+` or `-` is allowed
/// and skipped.
pub open spec fn signed_digits(s: Seq<char>) -> Seq<char> {
    if s.len() > 0 && (s[0] == '+' || s[0] == '-') {
        s.skip(1)
    } else {
        s
    }
}

/// The sign a signed decimal string denotes.
pub open spec fn decimal_sign(s: Seq<char>) -> int {
    if s.len() > 0 && s[0] == '-' {
        -1
    } else {
        1
    }
}

/// True when the string parses as a 16-bit signed decimal number.
pub open spec fn is_i16_decimal(s: Seq<char>) -> bool {
    let digits = signed_digits(s);
    &&& digits.len() > 0
    &&& all_decimal_digits(digits)
    &&& -32768 <= decimal_sign(s) * decimal_value(digits) <= 32767
}

/// Value of a 16-bit signed decimal string.
pub open spec fn i16_decimal_value(s: Seq<char>) -> int {
    decimal_sign(s) * decimal_value(signed_digits(s))
}

/// The value of a digit string is never negative.
proof fn lemma_decimal_value_nonneg(s: Seq<char>)
    requires
        all_decimal_digits(s),
    ensures
        decimal_value(s) >= 0,
    decreases s.len(),
{
    if s.len() > 0 {
        assert(all_decimal_digits(s.drop_last()));
        lemma_decimal_value_nonneg(s.drop_last());
    }
}

/// A prefix of a digit string never has a larger value than the whole.
proof fn lemma_decimal_value_prefix_le(s: Seq<char>, i: int)
    requires
        all_decimal_digits(s),
        0 <= i <= s.len(),
    ensures
        decimal_value(s.take(i)) <= decimal_value(s),
    decreases s.len(),
{
    if i == s.len() {
        assert(s.take(i) =~= s);
    } else {
        assert(all_decimal_digits(s.drop_last()));
        assert(s.take(i) =~= s.drop_last().take(i));
        lemma_decimal_value_prefix_le(s.drop_last(), i);
        lemma_decimal_value_nonneg(s.drop_last());
        assert(digit_value(s.last()) >= 0);
    }
}

/// Parses the decimal digits of `s` from index `from` to the end, rejecting
/// an empty digit string, a non-digit, and any value above `cap`.
fn parse_decimal_magnitude(s: &str, from: usize, cap: u32) -> (r: Option<u32>)
    requires
        from <= s@.len(),
        cap <= 0xFFFF,
    ensures
        match r {
            Some(v) => {
                &&& s@.skip(from as int).len() > 0
                &&& all_decimal_digits(s@.skip(from as int))
                &&& v == decimal_value(s@.skip(from as int))
                &&& v <= cap
            },
            None => !{
                &&& s@.skip(from as int).len() > 0
                &&& all_decimal_digits(s@.skip(from as int))
                &&& decimal_value(s@.skip(from as int)) <= cap
            },
        },
{
    let ghost digits = s@.skip(from as int);
    let len: usize = s.unicode_len();
    if from == len {
        proof {
            assert(digits.len() == 0);
        }
        return None;
    }
    let mut value: u32 = 0;
    let mut i: usize = from;
    while i < len
        invariant
            from <= i <= len,
            len == s@.len(),
            digits == s@.skip(from as int),
            all_decimal_digits(digits.take(i - from)),
            value == decimal_value(digits.take(i - from)),
            value <= cap,
            cap <= 0xFFFF,
        decreases len - i,
    {
        let c = s.get_char(i);
        proof {
            assert(digits[i - from] == s@[i as int]);
            assert(digits.take(i + 1 - from).drop_last() =~= digits.take(i - from));
            assert(digits.take(i + 1 - from).last() == digits[i - from]);
        }
        let code: u32 = c as u32;
        if code < 48 || code > 57 {
            proof {
                assert(!is_decimal_digit(digits[i - from]));
            }
            return None;
        }
        let digit: u32 = code - 48;
        let next: u32 = value * 10 + digit;
        if next > cap {
            proof {
                assert(decimal_value(digits.take(i + 1 - from)) == next);
                if all_decimal_digits(digits) {
                    lemma_decimal_value_prefix_le(digits, i + 1 - from);
                }
            }
            return None;
        }
        value = next;
        i = i + 1;
    }
    proof {
        assert(digits.take(len - from) =~= digits);
    }
    Some(value)
}

/// Parses the string as an 8-bit unsigned decimal number, as the standard
/// parser does: optional leading `+`, then only digits, value at most 255.
pub fn parse_u8_decimal(s: &str) -> (r: Option<u8>)
    ensures
        is_u8_decimal(s@) ==> r == Some(u8_decimal_value(s@) as u8),
        !is_u8_decimal(s@) ==> r is None,
{
    let len: usize = s.unicode_len();
    let from: usize = if len > 0 && s.get_char(0) == '+' {
        1
    } else {
        0
    };
    proof {
        if from == 0 {
            assert(s@.skip(0) =~= s@);
        }
        assert(s@.skip(from as int) == unsigned_digits(s@));
    }
    match parse_decimal_magnitude(s, from, 255) {
        Some(v) => Some(v as u8),
        None => None,
    }
}

/// Parses the string as a 16-bit signed decimal number, as the standard
/// parser does: optional leading `+` or `-`, then only digits, value within
/// the 16-bit signed range.
pub fn parse_i16_decimal(s: &str) -> (r: Option<i16>)
    ensures
        is_i16_decimal(s@) ==> r == Some(i16_decimal_value(s@) as i16),
        !is_i16_decimal(s@) ==> r is None,
{
    let len: usize = s.unicode_len();
    let mut negative: bool = false;
    let mut from: usize = 0;
    if len > 0 {
        let first = s.get_char(0);
        if first == '-' {
            negative = true;
            from = 1;
        } else if first == '+' {
            from = 1;
        }
    }
    proof {
        if from == 0 {
            assert(s@.skip(0) =~= s@);
        }
        assert(s@.skip(from as int) == signed_digits(s@));
        assert(negative <==> decimal_sign(s@) == -1);
    }
    let cap: u32 = if negative {
        32768
    } else {
        32767
    };
    match parse_decimal_magnitude(s, from, cap) {
        Some(v) => {
            let signed: i32 = if negative {
                -(v as i32)
            } else {
                v as i32
            };
            Some(signed as i16)
        },
        None => None,
    }
}

/// Index of the first `.` in the string, or its length if there is none.
pub open spec fn first_dot(s: Seq<char>) -> int
    decreases s.len(),
{
    if s.len() == 0 {
        0
    } else if s[0] == '.' {
        0
    } else {
        1 + first_dot(s.skip(1))
    }
}

/// [`first_dot`] points at the first `.`: everything before it is another
/// character, and it is a `.` unless it is the string's end.
pub proof fn lemma_first_dot_bounds(s: Seq<char>)
    ensures
        0 <= first_dot(s) <= s.len(),
        forall|j: int| 0 <= j < first_dot(s) ==> s[j] != '.',
        first_dot(s) < s.len() ==> s[first_dot(s)] == '.',
    decreases s.len(),
{
    if s.len() > 0 && s[0] != '.' {
        lemma_first_dot_bounds(s.skip(1));
        assert forall|j: int| 0 <= j < first_dot(s) implies s[j] != '.' by {
            if j > 0 {
                assert(s[j] == s.skip(1)[j - 1]);
            }
        }
    }
}

/// Any index with the properties of [`lemma_first_dot_bounds`] is
/// [`first_dot`].
pub proof fn lemma_first_dot_unique(s: Seq<char>, i: int)
    requires
        0 <= i <= s.len(),
        forall|j: int| 0 <= j < i ==> s[j] != '.',
        i < s.len() ==> s[i] == '.',
    ensures
        i == first_dot(s),
    decreases s.len(),
{
    if s.len() > 0 && s[0] != '.' {
        assert forall|j: int| 0 <= j < i - 1 implies s.skip(1)[j] != '.' by {
            assert(s.skip(1)[j] == s[j + 1]);
        }
        assert(i - 1 < s.skip(1).len() ==> s.skip(1)[i - 1] == '.');
        lemma_first_dot_unique(s.skip(1), i - 1);
    }
}

/// The second dot-separated identifier of a pre-release string: what stands
/// between the first `.` and the following `.` or the string's end.
pub open spec fn second_identifier(pre: Seq<char>) -> Seq<char> {
    let rest = pre.skip(first_dot(pre) + 1);
    rest.take(first_dot(rest))
}

/// Value an identifier contributes as the second pre-release part: its
/// numeric value when it is an 8-bit decimal number, the code of its first
/// character otherwise.
pub open spec fn second_value(second: Seq<char>) -> int {
    if is_u8_decimal(second) {
        u8_decimal_value(second)
    } else {
        second[0] as u32 as int
    }
}

/// The inputs the revision encoding is defined on: with a non-empty first
/// identifier, its first character must be an ASCII character other than
/// nul, and a second identifier must be non-empty and either an 8-bit
/// decimal number or start with an ASCII character.
pub open spec fn get_revision_allowed(pre: Seq<char>) -> bool {
    let d1 = first_dot(pre);
    d1 == 0 || {
        &&& 1 <= pre[0] as u32 <= 127
        &&& (d1 < pre.len() ==> {
            let second = second_identifier(pre);
            &&& second.len() > 0
            &&& (is_u8_decimal(second) || second[0] as u32 <= 127)
        })
    }
}

/// The revision a pre-release string encodes.
///
/// An empty first identifier (the stable release) maps to the stable
/// revision. Otherwise the first identifier's first character weighs 256 and
/// the second identifier adds its [`second_value`]; the sum is shifted to
/// start just above the smallest 16-bit value, so every pre-release orders
/// below the stable revision.
pub open spec fn pre_release_revision(pre: Seq<char>) -> int {
    let d1 = first_dot(pre);
    if d1 == 0 {
        STABLE_REVISION as int
    } else {
        let first_val = (pre[0] as u32) * 256;
        let pre_rev = if d1 == pre.len() {
            first_val as int
        } else {
            first_val + second_value(second_identifier(pre))
        };
        -32768 + pre_rev - 1
    }
}

/// Every pre-release revision orders strictly below the stable revision.
pub proof fn lemma_pre_release_below_stable(pre: Seq<char>)
    requires
        get_revision_allowed(pre),
        first_dot(pre) > 0,
    ensures
        pre_release_revision(pre) < STABLE_REVISION as int,
{
    let d1 = first_dot(pre);
    lemma_first_dot_bounds(pre);
    if d1 < pre.len() {
        let second = second_identifier(pre);
        if is_u8_decimal(second) {
            lemma_decimal_value_nonneg(unsigned_digits(second));
        }
    }
}

/// Computes the revision encoding of a version's pre-release string.
///
/// The first dot-separated identifier contributes its first character, the
/// second its numeric value or first character; an empty pre-release (a
/// stable version) yields [`STABLE_REVISION`].
/// Finds the first `.` in the string at or after `from`, or the string's
/// length if there is none.
fn find_dot(s: &str, from: usize) -> (r: usize)
    requires
        from <= s@.len(),
    ensures
        from <= r <= s@.len(),
        forall|j: int| from <= j < r ==> s@[j] != '.',
        r < s@.len() ==> s@[r as int] == '.',
{
    let len: usize = s.unicode_len();
    let mut i: usize = from;
    while i < len
        invariant
            from <= i <= len,
            len == s@.len(),
            forall|j: int| from <= j < i ==> s@[j] != '.',
        decreases len - i,
    {
        if s.get_char(i) == '.' {
            return i;
        }
        i = i + 1;
    }
    i
}

pub fn get_revision(pre: &str) -> (r: i16)
    requires
        get_revision_allowed(pre@),
    ensures
        r as int == pre_release_revision(pre@),
{
    let len: usize = pre.unicode_len();
    let d1: usize = find_dot(pre, 0);
    proof {
        lemma_first_dot_unique(pre@, d1 as int);
    }
    if d1 == 0 {
        return STABLE_REVISION;
    }
    let first_char = pre.get_char(0);
    let first_val: i32 = (first_char as u32 as i32) * 256;
    let pre_rev: i32;
    if d1 == len {
        pre_rev = first_val;
    } else {
        let ghost rest = pre@.skip(d1 + 1);
        let d2: usize = find_dot(pre, d1 + 1);
        proof {
            assert forall|j: int| 0 <= j < d2 - (d1 + 1) implies rest[j] != '.' by {
                assert(rest[j] == pre@[d1 + 1 + j]);
            }
            if d2 < len {
                assert(rest[d2 - (d1 + 1)] == pre@[d2 as int]);
            }
            lemma_first_dot_unique(rest, d2 - (d1 + 1));
            assert(rest.take(d2 - (d1 + 1)) =~= pre@.subrange(d1 + 1, d2 as int));
        }
        let second = pre.substring_char(d1 + 1, d2);
        proof {
            assert(second@ == second_identifier(pre@));
        }
        let second_val: u32 = match parse_u8_decimal(second) {
            Some(v) => v as u32,
            None => second.get_char(0) as u32,
        };
        proof {
            if is_u8_decimal(second@) {
                lemma_decimal_value_nonneg(unsigned_digits(second@));
            }
        }
        pre_rev = first_val + second_val as i32;
    }
    let shifted: i32 = -32768 + pre_rev - 1;
    shifted as i16
}

/// Builds the version record of the addon from the dotted version parts and
/// the pre-release tag, as the packaging metadata provides them.
pub fn addon_version_from_parts(major: &str, minor: &str, build: &str, pre: &str) -> (r:
    AddonVersion)
    requires
        is_i16_decimal(major@),
        is_i16_decimal(minor@),
        is_i16_decimal(build@),
        get_revision_allowed(pre@),
    ensures
        r.major as int == i16_decimal_value(major@),
        r.minor as int == i16_decimal_value(minor@),
        r.build as int == i16_decimal_value(build@),
        r.revision as int == pre_release_revision(pre@),
{
    let major = match parse_i16_decimal(major) {
        Some(v) => v,
        None => unreached(),
    };
    let minor = match parse_i16_decimal(minor) {
        Some(v) => v,
        None => unreached(),
    };
    let build = match parse_i16_decimal(build) {
        Some(v) => v,
        None => unreached(),
    };
    AddonVersion { major, minor, build, revision: get_revision(pre) }
}

} // verus!
