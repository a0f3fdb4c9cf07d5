//! Pruning unused images: the options, the result, and the parsing of
//! what a prune prints.

use crate::image::types::{SizeText, SizeTextView};
use crate::text::{
    ascii_upper, char_ascii_upper, char_kinds, chars_to_string, classify_chars, contains_text,
    piece_views, split, starts_with, str_to_chars, text_contains, text_eq, text_split,
    text_starts_with, trim, trimmed, CharKind,
};
use vstd::prelude::*;

verus! {

/// What to prune.
#[derive(Debug, Clone, Copy, PartialEq, Eq, Structural)]
pub struct PruneImageOptions {
    /// Every unused image, not only the dangling ones.
    pub all: bool,
}

impl Default for PruneImageOptions {
    /// Dangling images only.
    fn default() -> (options: PruneImageOptions)
        ensures
            !options.all,
    {
        PruneImageOptions { all: false }
    }
}

/// What pruning the images did.
#[derive(Debug, Clone, Copy, PartialEq, Eq, Structural)]
pub struct PruneResult {
    /// How many images were deleted.
    pub images_deleted: u32,
    /// The disk space that was won, in bytes.
    pub space_reclaimed: u64,
}

/// Whether one of the kinds is `Letter`.
pub open spec fn has_letter(kinds: Seq<CharKind>) -> bool
    decreases kinds.len(),
{
    kinds.len() > 0 && (kinds.last() == CharKind::Letter || has_letter(kinds.drop_last()))
}

/// The number of a size: the number characters of `s` that stand before
/// its first letter, in order. `kinds` tells what each character is.
pub open spec fn leading_number(s: Seq<char>, kinds: Seq<CharKind>) -> Seq<char>
    decreases s.len(),
{
    if s.len() == 0 || kinds.len() != s.len() {
        Seq::empty()
    } else if kinds.last() == CharKind::Number && !has_letter(kinds.drop_last()) {
        leading_number(s.drop_last(), kinds.drop_last()).push(s.last())
    } else {
        leading_number(s.drop_last(), kinds.drop_last())
    }
}

/// The unit of a size: the letters of `s`, in order, ASCII letters as
/// capitals. `kinds` tells what each character is.
pub open spec fn unit_letters(s: Seq<char>, kinds: Seq<CharKind>) -> Seq<char>
    decreases s.len(),
{
    if s.len() == 0 || kinds.len() != s.len() {
        Seq::empty()
    } else if kinds.last() == CharKind::Letter {
        unit_letters(s.drop_last(), kinds.drop_last()).push(ascii_upper(s.last()))
    } else {
        unit_letters(s.drop_last(), kinds.drop_last())
    }
}

/// The bytes of one unit written in capitals: `B` is one byte, `KB` or
/// `K` 1024, and so on up to `TB` or `T`, 1024⁴. Anything else counts as
/// bytes.
pub open spec fn unit_multiplier(unit: Seq<char>) -> nat {
    if unit == "KB"@ || unit == "K"@ {
        1024
    } else if unit == "MB"@ || unit == "M"@ {
        1024 * 1024
    } else if unit == "GB"@ || unit == "G"@ {
        1024 * 1024 * 1024
    } else if unit == "TB"@ || unit == "T"@ {
        1024 * 1024 * 1024 * 1024
    } else {
        1
    }
}

/// The size that the characters `t` write, where `kinds` tells what each
/// of them is: the number before the first letter, and the multiplier of
/// the letters.
pub open spec fn size_of_kinds(t: Seq<char>, kinds: Seq<CharKind>) -> SizeTextView {
    SizeTextView {
        number: leading_number(t, kinds),
        multiplier: unit_multiplier(unit_letters(t, kinds)),
    }
}

/// The size that a text such as `1.2GB` writes, read without the white
/// space around it.
pub open spec fn size_text(s: Seq<char>) -> SizeTextView {
    size_of_kinds(trimmed(s), char_kinds(trimmed(s)))
}

/// Whether `unit` is exactly `name`.
fn is_unit(unit: &[char], name: &str) -> (b: bool)
    ensures
        b == (unit@ == name@),
{
    let chars = str_to_chars(name);
    text_eq(unit, chars.as_slice())
}

/// Parts the characters of a size into its number and the bytes of its
/// unit, where `kinds` tells what each character is.
pub fn split_size(t: &[char], kinds: &[CharKind]) -> (r: SizeText)
    ensures
        r@ == size_of_kinds(t@, kinds@),
{
    if kinds.len() != t.len() {
        proof {
            reveal_strlit("KB");
            reveal_strlit("K");
            reveal_strlit("MB");
            reveal_strlit("M");
            reveal_strlit("GB");
            reveal_strlit("G");
            reveal_strlit("TB");
            reveal_strlit("T");
            assert("KB"@.len() == 2 && "K"@.len() == 1 && "MB"@.len() == 2 && "M"@.len() == 1);
            assert("GB"@.len() == 2 && "G"@.len() == 1 && "TB"@.len() == 2 && "T"@.len() == 1);
            assert(unit_letters(t@, kinds@).len() == 0);
            assert(leading_number(t@, kinds@).len() == 0);
            assert(unit_multiplier(unit_letters(t@, kinds@)) == 1);
        }
        return SizeText { number: String::new(), multiplier: 1 };
    }
    let mut number: Vec<char> = Vec::new();
    let mut unit: Vec<char> = Vec::new();
    let mut in_number: bool = true;
    let mut i: usize = 0;
    assert(t@.take(0) =~= Seq::<char>::empty());
    assert(kinds@.take(0) =~= Seq::<CharKind>::empty());
    while i < t.len()
        invariant
            i <= t.len(),
            kinds.len() == t.len(),
            number@ == leading_number(t@.take(i as int), kinds@.take(i as int)),
            unit@ == unit_letters(t@.take(i as int), kinds@.take(i as int)),
            in_number == !has_letter(kinds@.take(i as int)),
        decreases t.len() - i,
    {
        assert(t@.take(i + 1).drop_last() =~= t@.take(i as int));
        assert(kinds@.take(i + 1).drop_last() =~= kinds@.take(i as int));
        match kinds[i] {
            CharKind::Number => {
                if in_number {
                    number.push(t[i]);
                }
            },
            CharKind::Letter => {
                in_number = false;
                unit.push(char_ascii_upper(t[i]));
            },
            CharKind::Other => {},
        }
        i += 1;
    }
    assert(t@.take(i as int) =~= t@);
    assert(kinds@.take(i as int) =~= kinds@);
    let word = unit.as_slice();
    let multiplier: u64 = if is_unit(word, "KB") || is_unit(word, "K") {
        1024
    } else if is_unit(word, "MB") || is_unit(word, "M") {
        1024 * 1024
    } else if is_unit(word, "GB") || is_unit(word, "G") {
        1024 * 1024 * 1024
    } else if is_unit(word, "TB") || is_unit(word, "T") {
        1024 * 1024 * 1024 * 1024
    } else {
        1
    };
    SizeText { number: chars_to_string(number.as_slice()), multiplier }
}

/// Parts a size such as `1.2GB` or `500MB` into its number and the bytes
/// of its unit.
pub fn parse_size_text(size_str: &str) -> (r: SizeText)
    ensures
        r@ == size_text(size_str@),
{
    let chars = str_to_chars(size_str);
    let t = trim(chars.as_slice());
    let kinds = classify_chars(t.as_slice());
    split_size(t.as_slice(), kinds.as_slice())
}

/// Whether a line, read without the white space around it, tells of one
/// deleted image: it begins with `deleted:` or `untagged:`.
pub open spec fn tells_of_deletion(line: Seq<char>) -> bool {
    starts_with(trimmed(line), "deleted:"@) || starts_with(trimmed(line), "untagged:"@)
}

/// The size that a line tells was won, if it tells of one: the line
/// names `reclaimed`, and the size is what stands between its first colon
/// and its second.
pub open spec fn reclaimed_in(line: Seq<char>) -> Option<SizeTextView> {
    let t = trimmed(line);
    let parts = split(t, ":"@);
    if contains_text(t, "reclaimed"@) && parts.len() > 1 {
        Some(size_text(trimmed(parts[1])))
    } else {
        None
    }
}

/// How many of the lines tell of a deleted image.
pub open spec fn deleted_count(lines: Seq<Seq<char>>) -> nat
    decreases lines.len(),
{
    if lines.len() == 0 {
        0
    } else {
        deleted_count(lines.drop_last()) + if tells_of_deletion(lines.last()) {
            1nat
        } else {
            0nat
        }
    }
}

/// The size that the last line which tells of one says was won.
pub open spec fn last_reclaimed(lines: Seq<Seq<char>>) -> Option<SizeTextView>
    decreases lines.len(),
{
    if lines.len() == 0 {
        None
    } else if reclaimed_in(lines.last()) is Some {
        reclaimed_in(lines.last())
    } else {
        last_reclaimed(lines.drop_last())
    }
}

/// What the output of a prune tells.
#[derive(Debug)]
pub struct PruneOutput {
    /// How many images were deleted; `u32::MAX` stands for that many or
    /// more.
    pub images_deleted: u32,
    /// The disk space that was won, as written; `None` where the output
    /// names none.
    pub reclaimed: Option<SizeText>,
}

/// Reads what a prune printed: one deleted image for each line that
/// begins with `deleted:` or `untagged:`, and the size of the last line
/// that tells what was reclaimed.
pub fn parse_prune_output(output: &str) -> (r: PruneOutput)
    ensures
        r.images_deleted == (if deleted_count(split(output@, "\n"@)) < u32::MAX {
            deleted_count(split(output@, "\n"@))
        } else {
            u32::MAX as nat
        }),
        (match r.reclaimed {
            Some(size) => Some(size@),
            None => None,
        }) == last_reclaimed(split(output@, "\n"@)),
{
    let chars = str_to_chars(output);
    let newline = str_to_chars("\n");
    let colon = str_to_chars(":");
    let deleted = str_to_chars("deleted:");
    let untagged = str_to_chars("untagged:");
    let word = str_to_chars("reclaimed");
    proof {
        reveal_strlit("\n");
        reveal_strlit(":");
    }
    let lines = text_split(chars.as_slice(), newline.as_slice());
    let ghost all = split(output@, "\n"@);
    let mut images_deleted: u32 = 0;
    let mut reclaimed: Option<SizeText> = None;
    let mut i: usize = 0;
    assert(all.take(0) =~= Seq::<Seq<char>>::empty());
    while i < lines.len()
        invariant
            i <= lines.len(),
            all == piece_views(lines@),
            colon@ == ":"@,
            colon@.len() == 1,
            deleted@ == "deleted:"@,
            untagged@ == "untagged:"@,
            word@ == "reclaimed"@,
            images_deleted == (if deleted_count(all.take(i as int)) < u32::MAX {
                deleted_count(all.take(i as int))
            } else {
                u32::MAX as nat
            }),
            (match reclaimed {
                Some(size) => Some(size@),
                None => None,
            }) == last_reclaimed(all.take(i as int)),
        decreases lines.len() - i,
    {
        assert(all[i as int] == lines@[i as int]@);
        assert(all.take(i + 1).drop_last() =~= all.take(i as int));
        assert(all.take(i + 1).last() == all[i as int]);
        let line = trim(lines[i].as_slice());
        if text_starts_with(line.as_slice(), deleted.as_slice()) || text_starts_with(
            line.as_slice(),
            untagged.as_slice(),
        ) {
            if images_deleted < u32::MAX {
                images_deleted += 1;
            }
        }
        if text_contains(line.as_slice(), word.as_slice()) {
            let parts = text_split(line.as_slice(), colon.as_slice());
            if parts.len() > 1 {
                assert(piece_views(parts@)[1] == parts@[1]@);
                let size = chars_to_string(trim(parts[1].as_slice()).as_slice());
                reclaimed = Some(parse_size_text(size.as_str()));
            }
        }
        i += 1;
    }
    assert(all.take(i as int) =~= all);
    PruneOutput { images_deleted, reclaimed }
}

} // verus!
