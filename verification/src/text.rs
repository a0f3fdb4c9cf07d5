//! Character-level helpers shared by the parsers of this crate.

use vstd::prelude::*;

verus! {

/// Appends one character to a string.
///
/// Trusted: `String::push` extends the string by exactly the given
/// character and leaves the characters before it unchanged.
#[verifier::external_body]
pub(crate) fn push_char(s: &mut String, c: char)
    ensures
        final(s)@ == old(s)@.push(c),
{
    s.push(c)
}

/// The views of a list of strings, in order.
pub open spec fn text_views(v: Seq<String>) -> Seq<Seq<char>> {
    v.map_values(|s: String| s@)
}

/// The characters of a string slice, in order.
pub fn str_to_chars(s: &str) -> (v: Vec<char>)
    ensures
        v@ == s@,
{
    let mut v: Vec<char> = Vec::new();
    for c in it: s.chars()
        invariant
            v@ == it.seq().take(it.index()),
            it.seq() == s@,
    {
        v.push(c);
    }
    v
}

/// The string made of the given characters, in order.
pub fn chars_to_string(v: &[char]) -> (s: String)
    ensures
        s@ == v@,
{
    let mut s = String::new();
    let mut i: usize = 0;
    while i < v.len()
        invariant
            i <= v.len(),
            s@ == v@.take(i as int),
        decreases v.len() - i,
    {
        push_char(&mut s, v[i]);
        i += 1;
    }
    s
}

/// Whether `c` is one of the ten ASCII decimal digits.
pub open spec fn is_digit(c: char) -> bool {
    '0' <= c && c <= '9'
}

/// The number that an ASCII decimal digit stands for.
pub open spec fn digit_value(c: char) -> nat
    recommends
        is_digit(c),
{
    (c as u32 - '0' as u32) as nat
}

/// The ASCII digit that stands for `d`, for `d` below ten.
pub open spec fn digit_char(d: nat) -> char
    recommends
        d < 10,
{
    (('0' as u32 + d) as u32) as char
}

/// The number written by a sequence of decimal digits, most significant
/// first. The empty sequence writes zero.
pub open spec fn decimal_value(s: Seq<char>) -> nat
    decreases s.len(),
{
    if s.len() == 0 {
        0
    } else {
        decimal_value(s.drop_last()) * 10 + digit_value(s.last())
    }
}

/// The shortest decimal writing of `n`: no leading zero, except for zero
/// itself, which is written "0".
pub open spec fn decimal_text(n: nat) -> Seq<char>
    decreases n,
{
    if n < 10 {
        seq![digit_char(n)]
    } else {
        decimal_text(n / 10).push(digit_char(n % 10))
    }
}

/// Whether `c` is an ASCII decimal digit.
pub fn char_is_digit(c: char) -> (b: bool)
    ensures
        b == is_digit(c),
{
    '0' <= c && c <= '9'
}

/// The value of an ASCII decimal digit.
pub(crate) fn char_digit_value(c: char) -> (d: u8)
    requires
        is_digit(c),
    ensures
        d == digit_value(c),
        d < 10,
{
    ((c as u32) - ('0' as u32)) as u8
}

/// Appends the shortest decimal writing of `n` to `s`.
pub fn push_decimal(s: &mut String, n: u64)
    ensures
        final(s)@ == old(s)@ + decimal_text(n as nat),
    decreases n,
{
    if n >= 10 {
        push_decimal(s, n / 10);
    }
    let d: u8 = (n % 10) as u8;
    let c: char = (48u8 + d) as char;
    assert(c == digit_char((n % 10) as nat));
    push_char(s, c);
    assert(final(s)@ == old(s)@ + decimal_text(n as nat));
}

/// Whether `needle` stands in `hay` at position `i`.
pub open spec fn occurs_at(hay: Seq<char>, needle: Seq<char>, i: int) -> bool {
    0 <= i && i + needle.len() <= hay.len() && hay.subrange(i, i + needle.len()) == needle
}

/// Whether `needle` stands somewhere in `hay`.
pub open spec fn contains_text(hay: Seq<char>, needle: Seq<char>) -> bool {
    exists|i: int| occurs_at(hay, needle, i)
}

/// Whether `hay` begins with `needle`.
pub open spec fn starts_with(hay: Seq<char>, needle: Seq<char>) -> bool {
    occurs_at(hay, needle, 0)
}

/// Whether `needle` stands in `hay` at position `i`.
pub fn text_occurs_at(hay: &[char], needle: &[char], i: usize) -> (b: bool)
    ensures
        b == occurs_at(hay@, needle@, i as int),
{
    if needle.len() > hay.len() || i > hay.len() - needle.len() {
        return false;
    }
    let mut k: usize = 0;
    while k < needle.len()
        invariant
            k <= needle.len(),
            i + needle.len() <= hay.len(),
            forall|j: int| 0 <= j < k ==> hay@[i + j] == needle@[j],
        decreases needle.len() - k,
    {
        if hay[i + k] != needle[k] {
            assert(hay@.subrange(i as int, i + needle.len())[k as int] != needle@[k as int]);
            return false;
        }
        k += 1;
    }
    assert(hay@.subrange(i as int, i + needle.len()) =~= needle@);
    true
}

/// Whether `needle` stands somewhere in `hay`.
pub fn text_contains(hay: &[char], needle: &[char]) -> (b: bool)
    ensures
        b == contains_text(hay@, needle@),
{
    if needle.len() > hay.len() {
        assert forall|i: int| !occurs_at(hay@, needle@, i) by {}
        return false;
    }
    let last: usize = hay.len() - needle.len();
    let mut i: usize = 0;
    loop
        invariant
            last == hay.len() - needle.len(),
            i <= last,
            forall|j: int| 0 <= j < i ==> !occurs_at(hay@, needle@, j),
        decreases last - i,
    {
        if text_occurs_at(hay, needle, i) {
            return true;
        }
        if i == last {
            assert forall|j: int| !occurs_at(hay@, needle@, j) by {}
            return false;
        }
        i += 1;
    }
}

/// Whether `hay` begins with `needle`.
pub fn text_starts_with(hay: &[char], needle: &[char]) -> (b: bool)
    ensures
        b == starts_with(hay@, needle@),
{
    text_occurs_at(hay, needle, 0)
}

/// The characters of `v` from `from` up to, not including, `to`.
pub(crate) fn copy_range(v: &[char], from: usize, to: usize) -> (r: Vec<char>)
    requires
        from <= to <= v.len(),
    ensures
        r@ == v@.subrange(from as int, to as int),
{
    let mut r: Vec<char> = Vec::new();
    let mut i: usize = from;
    while i < to
        invariant
            from <= i <= to <= v.len(),
            r@ == v@.subrange(from as int, i as int),
        decreases to - i,
    {
        r.push(v[i]);
        assert(v@.subrange(from as int, i + 1) =~= v@.subrange(from as int, i as int).push(
            v@[i as int],
        ));
        i += 1;
    }
    r
}

/// Whether `c` has the Unicode property White_Space.
pub open spec fn is_whitespace(c: char) -> bool {
    let n = c as u32;
    (0x09 <= n <= 0x0D) || n == 0x20 || n == 0x85 || n == 0xA0 || n == 0x1680 || (0x2000 <= n
        <= 0x200A) || n == 0x2028 || n == 0x2029 || n == 0x202F || n == 0x205F || n == 0x3000
}

/// Whether `c` has the Unicode property White_Space.
pub fn char_is_whitespace(c: char) -> (b: bool)
    ensures
        b == is_whitespace(c),
{
    let n: u32 = c as u32;
    (0x09 <= n && n <= 0x0D) || n == 0x20 || n == 0x85 || n == 0xA0 || n == 0x1680 || (0x2000
        <= n && n <= 0x200A) || n == 0x2028 || n == 0x2029 || n == 0x202F || n == 0x205F || n
        == 0x3000
}

/// The length of `s` without the white space at its end.
pub open spec fn trim_end_len(s: Seq<char>) -> nat
    decreases s.len(),
{
    if s.len() > 0 && is_whitespace(s.last()) {
        trim_end_len(s.drop_last())
    } else {
        s.len()
    }
}

/// The index of the first character at or after `i` that is not white
/// space (the length of `s` if there is none).
pub open spec fn skip_whitespace(s: Seq<char>, i: int) -> int
    decreases s.len() - i,
{
    if 0 <= i < s.len() && is_whitespace(s[i]) {
        skip_whitespace(s, i + 1)
    } else {
        i
    }
}

/// `s` without the white space at its end.
pub open spec fn trim_end(s: Seq<char>) -> Seq<char> {
    s.take(trim_end_len(s) as int)
}

/// `s` without the white space at its start.
pub open spec fn trim_start(s: Seq<char>) -> Seq<char> {
    s.skip(skip_whitespace(s, 0))
}

/// `s` without the white space at its start and at its end.
pub open spec fn trimmed(s: Seq<char>) -> Seq<char> {
    trim_start(trim_end(s))
}

/// The bounds of `v` without the white space around it: the trimmed text
/// is what stands from the first to the second index.
pub fn trim_bounds(v: &[char]) -> (r: (usize, usize))
    ensures
        r.0 <= r.1 <= v.len(),
        v@.subrange(r.0 as int, r.1 as int) == trimmed(v@),
{
    let mut e: usize = v.len();
    assert(v@.take(e as int) =~= v@);
    while e > 0 && char_is_whitespace(v[e - 1])
        invariant
            e <= v.len(),
            trim_end_len(v@) == trim_end_len(v@.take(e as int)),
        decreases e,
    {
        assert(v@.take(e as int).drop_last() =~= v@.take(e - 1));
        e -= 1;
    }
    assert(trim_end_len(v@) == e);
    let ghost t = v@.take(e as int);
    let mut b: usize = 0;
    while b < e && char_is_whitespace(v[b])
        invariant
            b <= e <= v.len(),
            t == v@.take(e as int),
            skip_whitespace(t, 0) == skip_whitespace(t, b as int),
        decreases e - b,
    {
        b += 1;
    }
    assert(skip_whitespace(t, b as int) == b);
    assert(t.skip(b as int) =~= v@.subrange(b as int, e as int));
    (b, e)
}

/// `v` without the white space at its start and at its end.
pub fn trim(v: &[char]) -> (r: Vec<char>)
    ensures
        r@ == trimmed(v@),
{
    let (b, e) = trim_bounds(v);
    copy_range(v, b, e)
}

/// The lower-case form of an ASCII capital letter; any other character
/// unchanged.
pub open spec fn ascii_lower(c: char) -> char {
    if 'A' <= c && c <= 'Z' {
        ((c as u32 + 32) as u32) as char
    } else {
        c
    }
}

/// The upper-case form of an ASCII small letter; any other character
/// unchanged.
pub open spec fn ascii_upper(c: char) -> char {
    if 'a' <= c && c <= 'z' {
        ((c as u32 - 32) as u32) as char
    } else {
        c
    }
}

/// The lower-case form of an ASCII capital letter; any other character
/// unchanged.
pub fn char_ascii_lower(c: char) -> (r: char)
    ensures
        r == ascii_lower(c),
{
    if 'A' <= c && c <= 'Z' {
        ((c as u8) + 32) as char
    } else {
        c
    }
}

/// The upper-case form of an ASCII small letter; any other character
/// unchanged.
pub fn char_ascii_upper(c: char) -> (r: char)
    ensures
        r == ascii_upper(c),
{
    if 'a' <= c && c <= 'z' {
        ((c as u8) - 32) as char
    } else {
        c
    }
}

/// Whether two texts are equal once ASCII capitals are made small.
pub open spec fn eq_ignore_ascii_case(a: Seq<char>, b: Seq<char>) -> bool {
    a.len() == b.len() && forall|i: int|
        0 <= i < a.len() ==> ascii_lower(#[trigger] a[i]) == ascii_lower(b[i])
}

/// Whether two texts are equal once ASCII capitals are made small.
pub fn text_eq_ignore_ascii_case(a: &[char], b: &[char]) -> (r: bool)
    ensures
        r == eq_ignore_ascii_case(a@, b@),
{
    if a.len() != b.len() {
        return false;
    }
    let mut i: usize = 0;
    while i < a.len()
        invariant
            i <= a.len(),
            a.len() == b.len(),
            forall|j: int| 0 <= j < i ==> ascii_lower(#[trigger] a@[j]) == ascii_lower(b@[j]),
        decreases a.len() - i,
    {
        if char_ascii_lower(a[i]) != char_ascii_lower(b[i]) {
            return false;
        }
        i += 1;
    }
    true
}

/// Whether two texts hold the same characters.
pub fn text_eq(a: &[char], b: &[char]) -> (r: bool)
    ensures
        r == (a@ == b@),
{
    if a.len() != b.len() {
        return false;
    }
    let mut i: usize = 0;
    while i < a.len()
        invariant
            i <= a.len(),
            a.len() == b.len(),
            forall|j: int| 0 <= j < i ==> a@[j] == b@[j],
        decreases a.len() - i,
    {
        if a[i] != b[i] {
            return false;
        }
        i += 1;
    }
    assert(a@ =~= b@);
    true
}

/// The pieces of `s` between the occurrences of `sep`, read from `i` on,
/// where the piece under way began at `start`.
///
/// Occurrences are taken from left to right and do not overlap. There is
/// always one piece more than there are occurrences, so a text without
/// `sep` is one piece, and pieces may be empty.
pub open spec fn split_from(s: Seq<char>, sep: Seq<char>, start: int, i: int) -> Seq<Seq<char>>
    decreases s.len() - i,
{
    if sep.len() == 0 || i < 0 || i + sep.len() > s.len() || start < 0 || start > i {
        seq![s.subrange(start, s.len() as int)]
    } else if occurs_at(s, sep, i) {
        seq![s.subrange(start, i)] + split_from(s, sep, i + sep.len(), i + sep.len())
    } else {
        split_from(s, sep, start, i + 1)
    }
}

/// The pieces of `s` between the occurrences of `sep`.
pub open spec fn split(s: Seq<char>, sep: Seq<char>) -> Seq<Seq<char>> {
    split_from(s, sep, 0, 0)
}

/// The views of a list of pieces, in order.
pub open spec fn piece_views(v: Seq<Vec<char>>) -> Seq<Seq<char>> {
    v.map_values(|p: Vec<char>| p@)
}

/// The pieces of `v` between the occurrences of `sep`.
pub fn text_split(v: &[char], sep: &[char]) -> (pieces: Vec<Vec<char>>)
    ensures
        piece_views(pieces@) == split(v@, sep@),
        pieces.len() >= 1,
{
    let mut pieces: Vec<Vec<char>> = Vec::new();
    let mut start: usize = 0;
    let mut i: usize = 0;
    while sep.len() > 0 && sep.len() <= v.len() && i <= v.len() - sep.len()
        invariant
            start <= i <= v.len(),
            split(v@, sep@) == piece_views(pieces@) + split_from(
                v@,
                sep@,
                start as int,
                i as int,
            ),
        decreases v.len() - i,
    {
        if text_occurs_at(v, sep, i) {
            let piece = copy_range(v, start, i);
            proof {
                let before = piece_views(pieces@);
                let after = piece_views(pieces@.push(piece));
                assert(after =~= before + seq![piece@]);
                let rest = split_from(v@, sep@, i + sep.len(), i + sep.len());
                assert((before + seq![piece@]) + rest =~= before + (seq![piece@] + rest));
            }
            pieces.push(piece);
            i = i + sep.len();
            start = i;
        } else {
            i += 1;
        }
    }
    let piece = copy_range(v, start, v.len());
    proof {
        let before = piece_views(pieces@);
        assert(piece_views(pieces@.push(piece)) =~= before + seq![piece@]);
    }
    pieces.push(piece);
    pieces
}

/// The number that `s` writes in the way of an unsigned integer of std: an
/// optional `+`, then one or more ASCII digits and nothing else. `None`
/// where `s` is not written so, or writes a number above `max`.
pub open spec fn parse_unsigned(s: Seq<char>, max: nat) -> Option<nat> {
    let digits = unsigned_digits(s);
    if digits.len() > 0 && all_digits(digits) && decimal_value(digits) <= max {
        Some(decimal_value(digits))
    } else {
        None
    }
}

/// `s` without the `+` that may stand before the digits of a number.
pub open spec fn unsigned_digits(s: Seq<char>) -> Seq<char> {
    if s.len() > 1 && s[0] == '+' {
        s.skip(1)
    } else {
        s
    }
}

/// Whether every character of `s` is an ASCII digit.
pub open spec fn all_digits(s: Seq<char>) -> bool {
    forall|k: int| 0 <= k < s.len() ==> is_digit(#[trigger] s[k])
}

/// Appending a digit to a digit string multiplies its value by ten and
/// adds the digit.
pub proof fn lemma_decimal_value_step(s: Seq<char>, n: int)
    requires
        0 <= n < s.len(),
    ensures
        decimal_value(s.take(n + 1)) == decimal_value(s.take(n)) * 10 + digit_value(s[n]),
{
    assert(s.take(n + 1).drop_last() =~= s.take(n));
}

/// The number that `v` writes as an unsigned integer of at most `max`.
#[verifier::loop_isolation(false)]
pub fn text_parse_unsigned(v: &[char], max: u64) -> (r: Option<u64>)
    ensures
        r is Some <==> parse_unsigned(v@, max as nat) is Some,
        r matches Some(n) ==> parse_unsigned(v@, max as nat) == Some(n as nat),
{
    let from: usize = if v.len() > 1 && v[0] == '+' {
        1
    } else {
        0
    };
    let ghost digits = unsigned_digits(v@);
    assert(digits =~= v@.skip(from as int));
    if from == v.len() {
        return None;
    }
    let mut value: u64 = 0;
    let mut fits: bool = true;
    let mut i: usize = from;
    assert(digits.take(0) =~= Seq::<char>::empty());
    while i < v.len()
        invariant
            from <= i <= v.len(),
            digits == v@.skip(from as int),
            forall|k: int| 0 <= k < i - from ==> is_digit(#[trigger] digits[k]),
            fits ==> value == decimal_value(digits.take(i - from)) && value <= max,
            !fits ==> decimal_value(digits.take(i - from)) > max,
        decreases v.len() - i,
    {
        if !char_is_digit(v[i]) {
            proof {
                let k = i - from;
                assert(0 <= k < digits.len() && !is_digit(digits[k]));
                assert(!all_digits(digits));
            }
            return None;
        }
        let d: u8 = char_digit_value(v[i]);
        proof {
            lemma_decimal_value_step(digits, i - from);
        }
        if fits {
            if d as u64 > max || value > (max - d as u64) / 10 {
                fits = false;
                assert(value * 10 + d > max) by (nonlinear_arith)
                    requires
                        d > max || value > (max - d) / 10,
                        0 <= d,
                        0 <= value,
                        0 <= max,
                {
                }
            } else {
                assert(value * 10 + d <= max) by (nonlinear_arith)
                    requires
                        value <= (max - d) / 10,
                        d <= max,
                        0 <= d,
                        0 <= value,
                {
                }
                value = value * 10 + d as u64;
            }
        }
        i += 1;
    }
    assert(digits.take(i - from) =~= digits);
    assert(all_digits(digits));
    if fits {
        Some(value)
    } else {
        None
    }
}

/// The index of the first `c` in `s` at or after `i`, or -1 if there is
/// none.
pub open spec fn index_of_from(s: Seq<char>, c: char, i: int) -> int
    decreases s.len() - i,
{
    if i < 0 || i >= s.len() {
        -1
    } else if s[i] == c {
        i
    } else {
        index_of_from(s, c, i + 1)
    }
}

/// The index of the first `c` in `s`, or -1 if there is none.
pub open spec fn index_of(s: Seq<char>, c: char) -> int {
    index_of_from(s, c, 0)
}

/// The index of the last `c` in `s`, or -1 if there is none.
pub open spec fn last_index_of(s: Seq<char>, c: char) -> int
    decreases s.len(),
{
    if s.len() == 0 {
        -1
    } else if s.last() == c {
        s.len() - 1
    } else {
        last_index_of(s.drop_last(), c)
    }
}

/// The index of the first `c` in `v`.
pub fn text_index_of(v: &[char], c: char) -> (r: Option<usize>)
    ensures
        match r {
            Some(i) => i < v.len() && index_of(v@, c) == i,
            None => index_of(v@, c) == -1,
        },
{
    let mut i: usize = 0;
    while i < v.len()
        invariant
            i <= v.len(),
            index_of(v@, c) == index_of_from(v@, c, i as int),
        decreases v.len() - i,
    {
        if v[i] == c {
            return Some(i);
        }
        i += 1;
    }
    None
}

/// The index of the last `c` in `v`.
pub fn text_last_index_of(v: &[char], c: char) -> (r: Option<usize>)
    ensures
        match r {
            Some(i) => i < v.len() && last_index_of(v@, c) == i,
            None => last_index_of(v@, c) == -1,
        },
{
    let mut n: usize = v.len();
    assert(v@.take(n as int) =~= v@);
    while n > 0
        invariant
            n <= v.len(),
            last_index_of(v@, c) == last_index_of(v@.take(n as int), c),
        decreases n,
    {
        if v[n - 1] == c {
            return Some(n - 1);
        }
        assert(v@.take(n as int).drop_last() =~= v@.take(n - 1));
        n -= 1;
    }
    None
}

/// Whether `c` is an ASCII digit or one of the letters `a` to `f` in
/// either case.
pub open spec fn is_hex_digit(c: char) -> bool {
    is_digit(c) || ('a' <= c && c <= 'f') || ('A' <= c && c <= 'F')
}

/// Whether `c` is an ASCII hexadecimal digit.
pub fn char_is_hex_digit(c: char) -> (b: bool)
    ensures
        b == is_hex_digit(c),
{
    ('0' <= c && c <= '9') || ('a' <= c && c <= 'f') || ('A' <= c && c <= 'F')
}

/// `s` without the carriage return at its end, if it ends with one.
pub open spec fn strip_cr(s: Seq<char>) -> Seq<char> {
    if s.len() > 0 && s.last() == '\r' {
        s.drop_last()
    } else {
        s
    }
}

/// The lines of `s`. A line ends with a line feed, or with a carriage
/// return and a line feed; what stands after the last line feed is a line
/// too, unless it is empty.
pub open spec fn lines(s: Seq<char>) -> Seq<Seq<char>> {
    let pieces = split(s, "\n"@);
    let ended = pieces.drop_last().map_values(|p: Seq<char>| strip_cr(p));
    if pieces.last().len() > 0 {
        ended.push(pieces.last())
    } else {
        ended
    }
}

/// The lines of `v`.
pub fn text_lines(v: &[char]) -> (r: Vec<Vec<char>>)
    ensures
        piece_views(r@) == lines(v@),
{
    let newline = str_to_chars("\n");
    proof {
        reveal_strlit("\n");
    }
    let pieces = text_split(v, newline.as_slice());
    let ghost all = split(v@, "\n"@);
    let n = pieces.len() - 1;
    let mut r: Vec<Vec<char>> = Vec::new();
    let mut i: usize = 0;
    while i < n
        invariant
            i <= n,
            n == pieces.len() - 1,
            all == piece_views(pieces@),
            r.len() == i,
            forall|k: int| 0 <= k < i ==> (#[trigger] r@[k])@ == strip_cr(all[k]),
        decreases n - i,
    {
        assert(all[i as int] == pieces@[i as int]@);
        let p = &pieces[i];
        let line = if p.len() > 0 && p[p.len() - 1] == '\r' {
            let cut = copy_range(p.as_slice(), 0, p.len() - 1);
            assert(cut@ =~= p@.drop_last());
            cut
        } else {
            let whole = copy_range(p.as_slice(), 0, p.len());
            assert(whole@ =~= p@);
            whole
        };
        r.push(line);
        i += 1;
    }
    assert(all[n as int] == pieces@[n as int]@);
    assert(piece_views(r@) =~= all.drop_last().map_values(|p: Seq<char>| strip_cr(p)));
    if pieces[n].len() > 0 {
        let tail = copy_range(pieces[n].as_slice(), 0, pieces[n].len());
        assert(tail@ =~= pieces@[n as int]@);
        let ghost before = piece_views(r@);
        r.push(tail);
        assert(piece_views(r@) =~= before.push(all.last()));
    }
    r
}

/// Whether `c` is a number in the sense of Unicode: a decimal digit, a
/// letter number or another number, as `char::is_numeric` of std tells.
pub uninterp spec fn is_numeric(c: char) -> bool;

/// Whether `c` is alphabetic in the sense of Unicode, as
/// `char::is_alphabetic` of std tells.
pub uninterp spec fn is_alphabetic(c: char) -> bool;

/// Whether `c` is a number in the sense of Unicode.
///
/// Trusted: calls `char::is_numeric`, whose answer is a fixed property of
/// the character.
#[verifier::external_body]
fn char_is_numeric(c: char) -> (b: bool)
    ensures
        b == is_numeric(c),
{
    c.is_numeric()
}

/// Whether `c` is alphabetic in the sense of Unicode.
///
/// Trusted: calls `char::is_alphabetic`, whose answer is a fixed property
/// of the character.
#[verifier::external_body]
fn char_is_alphabetic(c: char) -> (b: bool)
    ensures
        b == is_alphabetic(c),
{
    c.is_alphabetic()
}

/// What a character is to a size such as `1.5MB`.
#[derive(Debug, Clone, Copy, PartialEq, Eq, Structural)]
pub enum CharKind {
    /// A Unicode number or a dot: part of the number.
    Number,
    /// A letter that is no number: part of the unit.
    Letter,
    /// Anything else.
    Other,
}

/// What `c` is to a size.
pub open spec fn char_kind(c: char) -> CharKind {
    if is_numeric(c) || c == '.' {
        CharKind::Number
    } else if is_alphabetic(c) {
        CharKind::Letter
    } else {
        CharKind::Other
    }
}

/// What each character of `s` is to a size.
pub open spec fn char_kinds(s: Seq<char>) -> Seq<CharKind> {
    s.map_values(|c: char| char_kind(c))
}

/// What each character of `v` is to a size.
pub fn classify_chars(v: &[char]) -> (kinds: Vec<CharKind>)
    ensures
        kinds@ == char_kinds(v@),
{
    let mut kinds: Vec<CharKind> = Vec::new();
    let mut i: usize = 0;
    while i < v.len()
        invariant
            i <= v.len(),
            kinds.len() == i,
            forall|k: int| 0 <= k < i ==> #[trigger] kinds@[k] == char_kind(v@[k]),
        decreases v.len() - i,
    {
        let c = v[i];
        let kind = if char_is_numeric(c) || c == '.' {
            CharKind::Number
        } else if char_is_alphabetic(c) {
            CharKind::Letter
        } else {
            CharKind::Other
        };
        kinds.push(kind);
        i += 1;
    }
    assert(kinds@ =~= char_kinds(v@));
    kinds
}

} // verus!
