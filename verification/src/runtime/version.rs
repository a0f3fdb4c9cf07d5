//! Version parsing and validation.
//!
//! A version is the first `digits.digits.digits` group of a text, where a
//! digit is one of the ASCII characters `0` to `9`. Whatever stands around
//! the group is ignored.

use crate::text::{
    char_digit_value, char_is_digit, decimal_text, decimal_value, digit_value, is_digit,
    push_char, push_decimal, str_to_chars,
};
use crate::types::{RuntimeType, Version};
use vstd::prelude::*;
use vstd::string::StringExecFns;

verus! {

/// Why a text holds no usable version.
#[derive(Debug, Clone, Copy, PartialEq, Eq, Structural)]
pub enum VersionParseError {
    /// No `digits.digits.digits` group occurs in the text.
    NoVersionFound,
    /// The first group holds a number above `u32::MAX`.
    ComponentOutOfRange,
}

/// The sentence that tells of a failure to parse `input`.
pub open spec fn parse_error_text(e: VersionParseError, input: Seq<char>) -> Seq<char> {
    match e {
        VersionParseError::NoVersionFound => "Could not parse version from: "@ + input,
        VersionParseError::ComponentOutOfRange => "number too large to fit in target type"@,
    }
}

impl VersionParseError {
    /// A sentence that tells of this failure to parse `input`.
    pub fn describe(&self, input: &str) -> (s: String)
        ensures
            s@ == parse_error_text(*self, input@),
    {
        match self {
            VersionParseError::NoVersionFound => {
                let mut s = "Could not parse version from: ".to_string();
                s.append(input);
                s
            },
            VersionParseError::ComponentOutOfRange => {
                "number too large to fit in target type".to_string()
            },
        }
    }
}

/// The index of the first character at or after `i` that is not a digit
/// (the length of `s` if every character from `i` on is a digit).
pub open spec fn digits_end(s: Seq<char>, i: int) -> int
    decreases s.len() - i,
{
    if 0 <= i < s.len() && is_digit(s[i]) {
        digits_end(s, i + 1)
    } else {
        i
    }
}

/// Where the three numbers of a version group end.
pub struct VersionSpan {
    pub major_end: int,
    pub minor_end: int,
    pub patch_end: int,
}

/// The version group that starts exactly at `i`, each number taken as
/// long as it can be, if there is one.
pub open spec fn version_at(s: Seq<char>, i: int) -> Option<VersionSpan> {
    let a = digits_end(s, i);
    let b = digits_end(s, a + 1);
    let c = digits_end(s, b + 1);
    if 0 <= i && i < a && a < s.len() && s[a] == '.' && a + 1 < b && b < s.len() && s[b] == '.'
        && b + 1 < c {
        Some(VersionSpan { major_end: a, minor_end: b, patch_end: c })
    } else {
        None
    }
}

/// The least index at or after `i` where a version group starts.
pub open spec fn first_version_from(s: Seq<char>, i: int) -> Option<int>
    decreases s.len() - i,
{
    if i < 0 || i >= s.len() {
        None
    } else if version_at(s, i) is Some {
        Some(i)
    } else {
        first_version_from(s, i + 1)
    }
}

/// The three numbers of the group that starts at `i`.
pub open spec fn version_numbers(s: Seq<char>, i: int) -> (nat, nat, nat)
    recommends
        version_at(s, i) is Some,
{
    let span = version_at(s, i)->0;
    (
        decimal_value(s.subrange(i, span.major_end)),
        decimal_value(s.subrange(span.major_end + 1, span.minor_end)),
        decimal_value(s.subrange(span.minor_end + 1, span.patch_end)),
    )
}

/// What parsing a text yields: the numbers of its first version group, or
/// the reason why there are none.
pub open spec fn parse_version_spec(s: Seq<char>) -> Result<(nat, nat, nat), VersionParseError> {
    match first_version_from(s, 0) {
        None => Err(VersionParseError::NoVersionFound),
        Some(i) => {
            let n = version_numbers(s, i);
            if n.0 <= u32::MAX && n.1 <= u32::MAX && n.2 <= u32::MAX {
                Ok(n)
            } else {
                Err(VersionParseError::ComponentOutOfRange)
            }
        },
    }
}

/// The text `major.minor.patch` in shortest decimal writing.
pub open spec fn version_text(major: nat, minor: nat, patch: nat) -> Seq<char> {
    decimal_text(major) + seq!['.'] + decimal_text(minor) + seq!['.'] + decimal_text(patch)
}

/// Appending a digit to a digit string multiplies its value by ten and
/// adds the digit.
pub proof fn lemma_decimal_value_push(s: Seq<char>, c: char)
    ensures
        decimal_value(s.push(c)) == decimal_value(s) * 10 + digit_value(c),
{
    assert(s.push(c).drop_last() =~= s);
}

/// From a digit on, the digit run ends after that digit's position.
pub proof fn lemma_digits_end_bounds(s: Seq<char>, i: int)
    requires
        0 <= i <= s.len(),
    ensures
        i <= digits_end(s, i) <= s.len(),
        forall|k: int| i <= k < digits_end(s, i) ==> is_digit(#[trigger] s[k]),
        digits_end(s, i) < s.len() ==> !is_digit(s[digits_end(s, i)]),
    decreases s.len() - i,
{
    if i < s.len() && is_digit(s[i]) {
        lemma_digits_end_bounds(s, i + 1);
    }
}

/// A run of digits from `i` to `e` that stops at a non-digit or at the end
/// is the digit run that `digits_end` finds.
pub proof fn lemma_digits_end_is(s: Seq<char>, i: int, e: int)
    requires
        0 <= i <= e <= s.len(),
        forall|k: int| i <= k < e ==> is_digit(#[trigger] s[k]),
        e < s.len() ==> !is_digit(s[e]),
    ensures
        digits_end(s, i) == e,
    decreases e - i,
{
    if i < e {
        lemma_digits_end_is(s, i + 1, e);
    }
}

/// Reads the digit run that starts at `start`.
///
/// Returns where the run ends and the number it writes, or `None` for the
/// number when it is above `u32::MAX`.
pub(crate) fn scan_number(chars: &[char], start: usize) -> (r: (usize, Option<u32>))
    requires
        start <= chars.len(),
    ensures
        r.0 == digits_end(chars@, start as int),
        start <= r.0 <= chars.len(),
        r.1 == (if decimal_value(chars@.subrange(start as int, r.0 as int)) <= u32::MAX {
            Some(decimal_value(chars@.subrange(start as int, r.0 as int)) as u32)
        } else {
            None
        }),
{
    let mut end: usize = start;
    let mut value: u64 = 0;
    let mut fits: bool = true;
    assert(chars@.subrange(start as int, start as int) =~= Seq::<char>::empty());
    while end < chars.len() && char_is_digit(chars[end])
        invariant
            start <= end <= chars.len(),
            forall|k: int| start <= k < end ==> is_digit(#[trigger] chars@[k]),
            fits ==> value == decimal_value(chars@.subrange(start as int, end as int)),
            fits ==> value <= u32::MAX,
            !fits ==> decimal_value(chars@.subrange(start as int, end as int)) > u32::MAX,
        decreases chars.len() - end,
    {
        let d: u8 = char_digit_value(chars[end]);
        proof {
            let before = chars@.subrange(start as int, end as int);
            assert(chars@.subrange(start as int, end as int + 1) =~= before.push(chars@[end as int]));
            lemma_decimal_value_push(before, chars@[end as int]);
        }
        if fits {
            let next: u64 = value * 10 + d as u64;
            if next > u32::MAX as u64 {
                fits = false;
            } else {
                value = next;
            }
        }
        end += 1;
    }
    proof {
        lemma_digits_end_is(chars@, start as int, end as int);
    }
    if fits {
        (end, Some(value as u32))
    } else {
        (end, None)
    }
}

/// The version group that starts exactly at `start`, if there is one: the
/// three numbers, each `None` when above `u32::MAX`.
pub(crate) fn match_version_at(chars: &[char], start: usize) -> (r: Option<
    (Option<u32>, Option<u32>, Option<u32>),
>)
    requires
        start < chars.len(),
    ensures
        r is Some <==> version_at(chars@, start as int) is Some,
        r matches Some(n) ==> {
            let v = version_numbers(chars@, start as int);
            &&& n.0 == (if v.0 <= u32::MAX { Some(v.0 as u32) } else { None })
            &&& n.1 == (if v.1 <= u32::MAX { Some(v.1 as u32) } else { None })
            &&& n.2 == (if v.2 <= u32::MAX { Some(v.2 as u32) } else { None })
        },
{
    let (a, major) = scan_number(chars, start);
    if a == start || a >= chars.len() || chars[a] != '.' {
        return None;
    }
    let (b, minor) = scan_number(chars, a + 1);
    if b == a + 1 || b >= chars.len() || chars[b] != '.' {
        return None;
    }
    let (c, patch) = scan_number(chars, b + 1);
    if c == b + 1 {
        return None;
    }
    Some((major, minor, patch))
}

/// Parses the first `major.minor.patch` group of a text.
///
/// Text before and after the group is ignored, so `"Docker version 24.0.7,
/// build afdd53b"` and `"24.0.7"` both give 24, 0 and 7. The `full` field is
/// rebuilt from the three numbers. Fails when the text holds no such group,
/// or when the first group holds a number above `u32::MAX`.
pub fn parse_version(version_str: &str) -> (r: Result<Version, VersionParseError>)
    ensures
        match r {
            Ok(v) => parse_version_spec(version_str@) == Ok::<(nat, nat, nat), VersionParseError>(
                (v.major as nat, v.minor as nat, v.patch as nat),
            ) && v.full@ == version_text(v.major as nat, v.minor as nat, v.patch as nat),
            Err(e) => parse_version_spec(version_str@) == Err::<(nat, nat, nat), VersionParseError>(
                e,
            ),
        },
{
    let chars = str_to_chars(version_str);
    let mut i: usize = 0;
    while i < chars.len()
        invariant
            i <= chars.len(),
            chars@ == version_str@,
            first_version_from(chars@, 0) == first_version_from(chars@, i as int),
        decreases chars.len() - i,
    {
        match match_version_at(chars.as_slice(), i) {
            Some((Some(major), Some(minor), Some(patch))) => {
                let mut full = String::new();
                push_decimal(&mut full, major as u64);
                push_char(&mut full, '.');
                push_decimal(&mut full, minor as u64);
                push_char(&mut full, '.');
                push_decimal(&mut full, patch as u64);
                assert(full@ =~= version_text(major as nat, minor as nat, patch as nat));
                return Ok(Version { major, minor, patch, full });
            },
            Some(_) => {
                return Err(VersionParseError::ComponentOutOfRange);
            },
            None => {},
        }
        i += 1;
    }
    Err(VersionParseError::NoVersionFound)
}

/// Whether `v` is at least `major.minor.patch`, comparing the majors
/// first, then the minors, then the patches.
pub open spec fn version_at_least(v: (nat, nat, nat), major: nat, minor: nat, patch: nat) -> bool {
    v.0 > major || (v.0 == major && (v.1 > minor || (v.1 == minor && v.2 >= patch)))
}

/// The least supported version of each engine: Docker 20.10.0 and
/// Podman 3.0.0.
pub open spec fn minimum_version(kind: RuntimeType) -> (nat, nat, nat) {
    match kind {
        RuntimeType::Docker => (20, 10, 0),
        RuntimeType::Podman => (3, 0, 0),
    }
}

/// Whether a version of the given engine is supported.
pub open spec fn meets_minimum(v: (nat, nat, nat), kind: RuntimeType) -> bool {
    let m = minimum_version(kind);
    version_at_least(v, m.0, m.1, m.2)
}

/// Whether a Docker version is at least 20.10.0.
pub fn validate_docker_version(version: &Version) -> (ok: bool)
    ensures
        ok == meets_minimum(
            (version.major as nat, version.minor as nat, version.patch as nat),
            RuntimeType::Docker,
        ),
        ok == (version.major > 20 || (version.major == 20 && version.minor >= 10)),
{
    version.major > 20 || (version.major == 20 && version.minor >= 10)
}

/// Whether a Podman version is at least 3.0.0.
pub fn validate_podman_version(version: &Version) -> (ok: bool)
    ensures
        ok == meets_minimum(
            (version.major as nat, version.minor as nat, version.patch as nat),
            RuntimeType::Podman,
        ),
        ok == (version.major >= 3),
{
    version.major >= 3
}

/// Whether a version meets the minimum of its engine.
///
/// A version below the minimum is reported, never rejected: callers turn
/// `false` into a warning on the runtime.
pub fn validate_minimum(version: &Version, kind: RuntimeType) -> (ok: bool)
    ensures
        ok == meets_minimum(
            (version.major as nat, version.minor as nat, version.patch as nat),
            kind,
        ),
{
    match kind {
        RuntimeType::Docker => validate_docker_version(version),
        RuntimeType::Podman => validate_podman_version(version),
    }
}

/// Whether every character of `s` is a digit and there is at least one.
pub open spec fn is_number_text(s: Seq<char>) -> bool {
    s.len() > 0 && forall|k: int| 0 <= k < s.len() ==> is_digit(#[trigger] s[k])
}

/// The text made of `prefix`, then `a.b.c`, then `suffix`.
pub open spec fn embed_version(
    prefix: Seq<char>,
    a: Seq<char>,
    b: Seq<char>,
    c: Seq<char>,
    suffix: Seq<char>,
) -> Seq<char> {
    prefix + a + seq!['.'] + b + seq!['.'] + c + suffix
}

/// Where no group starts from `i` up to `p` and one starts at `p`, the
/// first group from `i` on is the one at `p`.
pub proof fn lemma_first_version_is(s: Seq<char>, i: int, p: int)
    requires
        0 <= i <= p < s.len(),
        forall|j: int| i <= j < p ==> version_at(s, j) is None,
        version_at(s, p) is Some,
    ensures
        first_version_from(s, i) == Some(p),
    decreases p - i,
{
    if i < p {
        lemma_first_version_is(s, i + 1, p);
    }
}

/// Where no group starts at or after `i`, none is found from `i` on.
pub proof fn lemma_no_version_from(s: Seq<char>, i: int)
    requires
        0 <= i,
        forall|j: int| i <= j < s.len() ==> version_at(s, j) is None,
    ensures
        first_version_from(s, i) is None,
    decreases s.len() - i,
{
    if i < s.len() {
        lemma_no_version_from(s, i + 1);
    }
}

/// A version written anywhere in a text is found whatever stands around
/// it: if `a`, `b` and `c` are digit strings whose numbers fit in 32 bits,
/// no version group starts inside `prefix`, and `suffix` does not go on
/// with a digit, then parsing `prefix a.b.c suffix` gives exactly the
/// numbers that `a`, `b` and `c` write.
pub proof fn lemma_parse_embedded_version(
    prefix: Seq<char>,
    a: Seq<char>,
    b: Seq<char>,
    c: Seq<char>,
    suffix: Seq<char>,
)
    requires
        is_number_text(a),
        is_number_text(b),
        is_number_text(c),
        decimal_value(a) <= u32::MAX,
        decimal_value(b) <= u32::MAX,
        decimal_value(c) <= u32::MAX,
        suffix.len() > 0 ==> !is_digit(suffix[0]),
        forall|j: int|
            0 <= j < prefix.len() ==> version_at(embed_version(prefix, a, b, c, suffix), j)
                is None,
    ensures
        parse_version_spec(embed_version(prefix, a, b, c, suffix)) == Ok::<
            (nat, nat, nat),
            VersionParseError,
        >((decimal_value(a), decimal_value(b), decimal_value(c))),
{
    let s = embed_version(prefix, a, b, c, suffix);
    let p = prefix.len() as int;
    let ea = p + a.len();
    let eb = ea + 1 + b.len();
    let ec = eb + 1 + c.len();
    assert(s.len() == ec + suffix.len());
    assert forall|k: int| p <= k < ea implies is_digit(#[trigger] s[k]) by {
        assert(s[k] == a[k - p]);
    }
    assert(s[ea] == '.');
    assert forall|k: int| ea + 1 <= k < eb implies is_digit(#[trigger] s[k]) by {
        assert(s[k] == b[k - ea - 1]);
    }
    assert(s[eb] == '.');
    assert forall|k: int| eb + 1 <= k < ec implies is_digit(#[trigger] s[k]) by {
        assert(s[k] == c[k - eb - 1]);
    }
    if ec < s.len() {
        assert(s[ec] == suffix[0]);
    }
    lemma_digits_end_is(s, p, ea);
    lemma_digits_end_is(s, ea + 1, eb);
    lemma_digits_end_is(s, eb + 1, ec);
    assert(s.subrange(p, ea) =~= a);
    assert(s.subrange(ea + 1, eb) =~= b);
    assert(s.subrange(eb + 1, ec) =~= c);
    assert(version_at(s, p) is Some);
    lemma_first_version_is(s, 0, p);
}

/// The same for prose without digits: if `prefix` holds no digit at all,
/// `prefix a.b.c suffix` parses to the numbers of `a`, `b` and `c`.
pub proof fn lemma_parse_version_in_prose(
    prefix: Seq<char>,
    a: Seq<char>,
    b: Seq<char>,
    c: Seq<char>,
    suffix: Seq<char>,
)
    requires
        is_number_text(a),
        is_number_text(b),
        is_number_text(c),
        decimal_value(a) <= u32::MAX,
        decimal_value(b) <= u32::MAX,
        decimal_value(c) <= u32::MAX,
        suffix.len() > 0 ==> !is_digit(suffix[0]),
        forall|j: int| 0 <= j < prefix.len() ==> !is_digit(#[trigger] prefix[j]),
    ensures
        parse_version_spec(embed_version(prefix, a, b, c, suffix)) == Ok::<
            (nat, nat, nat),
            VersionParseError,
        >((decimal_value(a), decimal_value(b), decimal_value(c))),
{
    let s = embed_version(prefix, a, b, c, suffix);
    assert forall|j: int| 0 <= j < prefix.len() implies version_at(s, j) is None by {
        assert(s[j] == prefix[j]);
        assert(digits_end(s, j) == j);
    }
    lemma_parse_embedded_version(prefix, a, b, c, suffix);
}

/// A text with fewer than two dots holds no version: parsing it fails.
pub proof fn lemma_parse_needs_two_dots(s: Seq<char>)
    requires
        forall|i: int, j: int| 0 <= i < j < s.len() ==> !(s[i] == '.' && s[j] == '.'),
    ensures
        parse_version_spec(s) == Err::<(nat, nat, nat), VersionParseError>(
            VersionParseError::NoVersionFound,
        ),
{
    assert forall|i: int| 0 <= i < s.len() implies version_at(s, i) is None by {
        if version_at(s, i) is Some {
            let a = digits_end(s, i);
            let b = digits_end(s, a + 1);
            lemma_digits_end_bounds(s, a + 1);
            assert(s[a] == '.' && s[b] == '.' && a < b);
        }
    }
    lemma_no_version_from(s, 0);
}

/// A text without any digit holds no version: parsing it fails.
pub proof fn lemma_parse_needs_digits(s: Seq<char>)
    requires
        forall|i: int| 0 <= i < s.len() ==> !is_digit(#[trigger] s[i]),
    ensures
        parse_version_spec(s) == Err::<(nat, nat, nat), VersionParseError>(
            VersionParseError::NoVersionFound,
        ),
{
    assert forall|i: int| 0 <= i < s.len() implies version_at(s, i) is None by {
        assert(!is_digit(s[i]));
        assert(digits_end(s, i) == i);
    }
    lemma_no_version_from(s, 0);
}

} // verus!
