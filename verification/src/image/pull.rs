//! Pulling an image: the options, the progress of the layers, and the
//! parsing of the lines that a pull prints.

use crate::image::types::{SizeText, SizeTextView};
use crate::text::{
    char_is_hex_digit, char_kinds, chars_to_string, classify_chars, copy_range,
    eq_ignore_ascii_case, index_of, is_hex_digit, piece_views, split, starts_with,
    str_to_chars, text_eq_ignore_ascii_case, text_index_of, text_split, text_starts_with, trim,
    trimmed, CharKind,
};
use vstd::prelude::*;
use vstd::string::StringExecFns;

verus! {

/// What to pull.
#[derive(Debug)]
pub struct PullImageOptions {
    /// The name, such as `nginx` or `docker.io/library/nginx`.
    pub image_name: String,
    /// The tag, such as `latest`.
    pub tag: String,
    /// `user:password` or a token, if the registry asks for one.
    pub auth: Option<String>,
}

/// How far one layer of an image has come.
#[derive(Debug)]
pub struct LayerProgress {
    pub id: String,
    /// Such as `Downloading`, `Download complete` or `Pull complete`.
    pub status: String,
    /// The bytes that have arrived.
    pub current: Option<u64>,
    /// The bytes of the whole layer.
    pub total: Option<u64>,
}

/// The mathematical content of a [`LayerProgress`].
pub struct LayerProgressView {
    pub id: Seq<char>,
    pub status: Seq<char>,
    pub current: Option<u64>,
    pub total: Option<u64>,
}

impl View for LayerProgress {
    type V = LayerProgressView;

    open spec fn view(&self) -> LayerProgressView {
        LayerProgressView {
            id: self.id@,
            status: self.status@,
            current: self.current,
            total: self.total,
        }
    }
}

/// How far the pull of an image has come.
#[derive(Debug)]
pub struct PullProgress {
    pub image: String,
    pub layers: Vec<LayerProgress>,
    pub message: String,
    pub complete: bool,
}

/// The characters of `s` of the kind `Number` if `number` is set, and
/// those of any other kind if not, in order. `kinds` tells what each
/// character is.
pub open spec fn picked(s: Seq<char>, kinds: Seq<CharKind>, number: bool) -> Seq<char>
    decreases s.len(),
{
    if s.len() == 0 || kinds.len() != s.len() {
        Seq::empty()
    } else if (kinds.last() == CharKind::Number) == number {
        picked(s.drop_last(), kinds.drop_last(), number).push(s.last())
    } else {
        picked(s.drop_last(), kinds.drop_last(), number)
    }
}

/// The bytes of one unit, whatever its capitals: `B` is one byte, `KB` or
/// `K` 1024, `MB` or `M` 1024², `GB` or `G` 1024³. Anything else counts
/// as bytes.
pub open spec fn unit_multiplier(unit: Seq<char>) -> nat {
    if eq_ignore_ascii_case(unit, "KB"@) || eq_ignore_ascii_case(unit, "K"@) {
        1024
    } else if eq_ignore_ascii_case(unit, "MB"@) || eq_ignore_ascii_case(unit, "M"@) {
        1024 * 1024
    } else if eq_ignore_ascii_case(unit, "GB"@) || eq_ignore_ascii_case(unit, "G"@) {
        1024 * 1024 * 1024
    } else {
        1
    }
}

/// The size that the characters `t` write, where `kinds` tells what each
/// of them is: the number is made of the number characters, and the unit
/// is what is left, without the white space around it.
pub open spec fn size_of_kinds(t: Seq<char>, kinds: Seq<CharKind>) -> SizeTextView {
    SizeTextView {
        number: picked(t, kinds, true),
        multiplier: unit_multiplier(trimmed(picked(t, kinds, false))),
    }
}

/// The size that a text such as `1.5MB` writes, read without the white
/// space around it.
pub open spec fn size_text(s: Seq<char>) -> SizeTextView {
    size_of_kinds(trimmed(s), char_kinds(trimmed(s)))
}

/// Whether `unit` is `name`, whatever its capitals.
fn is_unit(unit: &[char], name: &str) -> (b: bool)
    ensures
        b == eq_ignore_ascii_case(unit@, name@),
{
    let chars = str_to_chars(name);
    text_eq_ignore_ascii_case(unit, chars.as_slice())
}

/// Parts the characters of a size into its number and the bytes of its
/// unit, where `kinds` tells what each character is.
pub fn split_size(t: &[char], kinds: &[CharKind]) -> (r: SizeText)
    ensures
        r@ == size_of_kinds(t@, kinds@),
{
    if kinds.len() != t.len() {
        proof {
            reveal_strlit("KB");
            reveal_strlit("K");
            reveal_strlit("MB");
            reveal_strlit("M");
            reveal_strlit("GB");
            reveal_strlit("G");
            reveal_strlit("TB");
            reveal_strlit("T");
            assert(trimmed(Seq::<char>::empty()) =~= Seq::<char>::empty());
        }
        return SizeText { number: String::new(), multiplier: 1 };
    }
    let mut number: Vec<char> = Vec::new();
    let mut unit: Vec<char> = Vec::new();
    let mut i: usize = 0;
    assert(t@.take(0) =~= Seq::<char>::empty());
    while i < t.len()
        invariant
            i <= t.len(),
            kinds.len() == t.len(),
            number@ == picked(t@.take(i as int), kinds@.take(i as int), true),
            unit@ == picked(t@.take(i as int), kinds@.take(i as int), false),
        decreases t.len() - i,
    {
        assert(t@.take(i + 1).drop_last() =~= t@.take(i as int));
        assert(kinds@.take(i + 1).drop_last() =~= kinds@.take(i as int));
        match kinds[i] {
            CharKind::Number => {
                number.push(t[i]);
            },
            _ => {
                unit.push(t[i]);
            },
        }
        i += 1;
    }
    assert(t@.take(i as int) =~= t@);
    assert(kinds@.take(i as int) =~= kinds@);
    let u = trim(unit.as_slice());
    let word = u.as_slice();
    let multiplier: u64 = if is_unit(word, "KB") || is_unit(word, "K") {
        1024
    } else if is_unit(word, "MB") || is_unit(word, "M") {
        1024 * 1024
    } else if is_unit(word, "GB") || is_unit(word, "G") {
        1024 * 1024 * 1024
    } else {
        1
    };
    SizeText { number: chars_to_string(number.as_slice()), multiplier }
}

/// Parts a size such as `1.5MB` into its number and the bytes of its
/// unit.
pub fn parse_size_text(s: &str) -> (r: SizeText)
    ensures
        r@ == size_text(s@),
{
    let chars = str_to_chars(s);
    let t = trim(chars.as_slice());
    let kinds = classify_chars(t.as_slice());
    split_size(t.as_slice(), kinds.as_slice())
}

/// The two sizes of a progress such as `1.5MB/10MB`: what has arrived
/// and the whole. Nothing where the text is not two parts around one
/// slash.
pub open spec fn bytes_progress(s: Seq<char>) -> Option<(SizeTextView, SizeTextView)> {
    let parts = split(s, "/"@);
    if parts.len() == 2 {
        Some((size_text(trimmed(parts[0])), size_text(trimmed(parts[1]))))
    } else {
        None
    }
}

/// Parts a progress such as `1.5MB/10MB` into its two sizes.
pub fn parse_bytes_progress(s: &[char]) -> (r: Option<(SizeText, SizeText)>)
    ensures
        r is Some <==> bytes_progress(s@) is Some,
        r matches Some(sizes) ==> bytes_progress(s@) == Some((sizes.0@, sizes.1@)),
{
    let slash = str_to_chars("/");
    proof {
        reveal_strlit("/");
    }
    let parts = text_split(s, slash.as_slice());
    if parts.len() != 2 {
        return None;
    }
    assert(piece_views(parts@)[0] == parts@[0]@);
    assert(piece_views(parts@)[1] == parts@[1]@);
    let first = chars_to_string(trim(parts[0].as_slice()).as_slice());
    let second = chars_to_string(trim(parts[1].as_slice()).as_slice());
    Some((parse_size_text(first.as_str()), parse_size_text(second.as_str())))
}

/// One line of a pull that tells of a layer.
#[derive(Debug)]
pub struct PullLine {
    /// The layer: twelve hexadecimal digits.
    pub id: String,
    pub status: String,
    /// What has arrived and the whole, where the line shows a progress bar
    /// followed by two sizes.
    pub sizes: Option<(SizeText, SizeText)>,
}

/// The mathematical content of a [`PullLine`].
pub struct PullLineView {
    pub id: Seq<char>,
    pub status: Seq<char>,
    pub sizes: Option<(SizeTextView, SizeTextView)>,
}

impl View for PullLine {
    type V = PullLineView;

    open spec fn view(&self) -> PullLineView {
        PullLineView {
            id: self.id@,
            status: self.status@,
            sizes: match self.sizes {
                Some(sizes) => Some((sizes.0@, sizes.1@)),
                None => None,
            },
        }
    }
}

/// Whether `id` names a layer: exactly twelve hexadecimal digits.
pub open spec fn is_layer_id(id: Seq<char>) -> bool {
    id.len() == 12 && forall|k: int| 0 <= k < id.len() ==> is_hex_digit(#[trigger] id[k])
}

/// The status of a line with a progress bar, by the word it begins with.
pub open spec fn progress_status(status: Seq<char>) -> Seq<char> {
    if starts_with(status, "Downloading"@) {
        "Downloading"@
    } else if starts_with(status, "Extracting"@) {
        "Extracting"@
    } else {
        "Processing"@
    }
}

/// What a line of a pull tells of a layer.
///
/// The line is `id: status`, parted at its first colon, each side without
/// the white space around it. A line without a colon, or whose id is not
/// twelve hexadecimal digits, tells of no layer. A status with a progress
/// bar, `[` and then `]`, is cut down to its first word, and what follows
/// the first `]`, up to the next, is read as two sizes.
pub open spec fn pull_line(line: Seq<char>) -> Option<PullLineView> {
    let colon = index_of(line, ':');
    let id = trimmed(line.take(colon));
    let status = trimmed(line.skip(colon + 1));
    let after = split(status, "]"@);
    if colon < 0 || !is_layer_id(id) {
        None
    } else if index_of(status, '[') >= 0 && after.len() > 1 {
        Some(
            PullLineView {
                id,
                status: progress_status(status),
                sizes: bytes_progress(trimmed(after[1])),
            },
        )
    } else {
        Some(PullLineView { id, status, sizes: None })
    }
}

/// Whether `id` names a layer.
fn check_layer_id(id: &[char]) -> (b: bool)
    ensures
        b == is_layer_id(id@),
{
    if id.len() != 12 {
        return false;
    }
    let mut k: usize = 0;
    while k < id.len()
        invariant
            k <= id.len(),
            id.len() == 12,
            forall|j: int| 0 <= j < k ==> is_hex_digit(#[trigger] id@[j]),
        decreases id.len() - k,
    {
        if !char_is_hex_digit(id[k]) {
            return false;
        }
        k += 1;
    }
    true
}

/// Reads one line of a pull, such as `a1b2c3d4e5f6: Pulling fs layer` or
/// `a1b2c3d4e5f6: Downloading [==>   ] 1.5MB/10MB`.
pub fn parse_pull_line(line: &str) -> (r: Option<PullLine>)
    ensures
        r is Some <==> pull_line(line@) is Some,
        r matches Some(parsed) ==> pull_line(line@) == Some(parsed@),
{
    let chars = str_to_chars(line);
    let colon = match text_index_of(chars.as_slice(), ':') {
        Some(colon) => colon,
        None => {
            return None;
        },
    };
    let before = copy_range(chars.as_slice(), 0, colon);
    let behind = copy_range(chars.as_slice(), colon + 1, chars.len());
    assert(before@ =~= chars@.take(colon as int));
    assert(behind@ =~= chars@.skip(colon + 1));
    let id = trim(before.as_slice());
    let status = trim(behind.as_slice());
    if !check_layer_id(id.as_slice()) {
        return None;
    }
    let bracket = str_to_chars("]");
    proof {
        reveal_strlit("]");
    }
    let after = text_split(status.as_slice(), bracket.as_slice());
    if text_index_of(status.as_slice(), '[').is_some() && after.len() > 1 {
        assert(piece_views(after@)[1] == after@[1]@);
        let rest = trim(after[1].as_slice());
        let downloading = str_to_chars("Downloading");
        let extracting = str_to_chars("Extracting");
        let word = if text_starts_with(status.as_slice(), downloading.as_slice()) {
            "Downloading".to_string()
        } else if text_starts_with(status.as_slice(), extracting.as_slice()) {
            "Extracting".to_string()
        } else {
            "Processing".to_string()
        };
        Some(
            PullLine {
                id: chars_to_string(id.as_slice()),
                status: word,
                sizes: parse_bytes_progress(rest.as_slice()),
            },
        )
    } else {
        Some(
            PullLine {
                id: chars_to_string(id.as_slice()),
                status: chars_to_string(status.as_slice()),
                sizes: None,
            },
        )
    }
}

/// The views of a list of layers, in order.
pub open spec fn layer_views(v: Seq<LayerProgress>) -> Seq<LayerProgressView> {
    v.map_values(|l: LayerProgress| l@)
}

/// The index of the first layer, from `from` on, with the id `id`, or -1
/// if there is none.
pub open spec fn layer_index(layers: Seq<LayerProgressView>, id: Seq<char>, from: int) -> int
    decreases layers.len() - from,
{
    if from < 0 || from >= layers.len() {
        -1
    } else if layers[from].id == id {
        from
    } else {
        layer_index(layers, id, from + 1)
    }
}

/// The layers after `progress` came in: it takes the place of the first
/// layer with its id, or is added at the end if there is none.
pub open spec fn with_layer(
    layers: Seq<LayerProgressView>,
    progress: LayerProgressView,
) -> Seq<LayerProgressView> {
    let at = layer_index(layers, progress.id, 0);
    if at >= 0 {
        layers.update(at, progress)
    } else {
        layers.push(progress)
    }
}

/// Takes note of the progress of a layer: it takes the place of what was
/// known of that layer, or is added as a new layer.
pub fn update_layers(layers: &mut Vec<LayerProgress>, progress: LayerProgress)
    ensures
        layer_views(final(layers)@) == with_layer(layer_views(old(layers)@), progress@),
{
    let ghost before = layer_views(layers@);
    let mut i: usize = 0;
    while i < layers.len()
        invariant
            i <= layers.len(),
            layers@ == old(layers)@,
            before == layer_views(layers@),
            layer_index(before, progress@.id, 0) == layer_index(before, progress@.id, i as int),
        decreases layers.len() - i,
    {
        assert(before[i as int] == layers@[i as int]@);
        if layers[i].id == progress.id {
            layers.set(i, progress);
            assert(layer_views(layers@) =~= before.update(i as int, progress@));
            return;
        }
        i += 1;
    }
    layers.push(progress);
    assert(layer_views(layers@) =~= before.push(progress@));
}

/// The reference `name:tag` of the image to pull.
pub open spec fn image_reference(name: Seq<char>, tag: Seq<char>) -> Seq<char> {
    name + ":"@ + tag
}

/// The reference `name:tag` of the image to pull.
pub fn image_ref(options: &PullImageOptions) -> (r: String)
    ensures
        r@ == image_reference(options.image_name@, options.tag@),
{
    let mut r = options.image_name.clone();
    r.append(":");
    r.append(options.tag.as_str());
    r
}

} // verus!
