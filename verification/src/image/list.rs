//! Parsing of what `images` prints.

use crate::clock::{
    formatted_form, reformat_relaxed, reformat_rfc3339, reformat_with, relaxed_form,
    rfc3339_form,
};
use crate::text::{
    chars_to_string, copy_range, last_index_of, lines, piece_views, split, str_to_chars,
    text_eq, text_last_index_of, text_lines, text_split, text_views, trim, trimmed,
};
use crate::container::list::{
    first_of, label_map, labels_from_raw, text_or_empty, unwrap_text, RawLabels,
};
use crate::image::types::Image;
use crate::types::opt_text;
use vstd::hash_map::StringHashMap;
use vstd::prelude::*;

verus! {

/// The tag of a reference that names none.
pub open spec fn default_tag() -> Seq<char> {
    "latest"@
}

/// The repository and the tag of a reference `repository:tag`.
///
/// The last colon parts the two, so a registry with a port stays in the
/// repository. A reference without a colon has the tag `latest`.
pub open spec fn repo_tag(reference: Seq<char>) -> (Seq<char>, Seq<char>) {
    let colon = last_index_of(reference, ':');
    if colon >= 0 {
        (reference.take(colon), reference.skip(colon + 1))
    } else {
        (reference, default_tag())
    }
}

/// Parts a reference `repository:tag` into the repository and the tag.
pub fn parse_repo_tag(repo_tag: &str) -> (r: (String, String))
    ensures
        (r.0@, r.1@) == self::repo_tag(repo_tag@),
{
    let chars = str_to_chars(repo_tag);
    match text_last_index_of(chars.as_slice(), ':') {
        Some(colon) => {
            let repo = copy_range(chars.as_slice(), 0, colon);
            let tag = copy_range(chars.as_slice(), colon + 1, chars.len());
            assert(chars@.subrange(0, colon as int) =~= chars@.take(colon as int));
            assert(chars@.subrange(colon + 1, chars.len() as int) =~= chars@.skip(colon + 1));
            (chars_to_string(repo.as_slice()), chars_to_string(tag.as_slice()))
        },
        None => (chars_to_string(chars.as_slice()), "latest".to_string()),
    }
}

/// The arguments that list the images.
pub fn list_args() -> (args: Vec<String>)
    ensures
        text_views(args@) == seq!["images"@, "--format"@, "json"@],
{
    let mut args: Vec<String> = Vec::new();
    args.push("images".to_string());
    args.push("--format".to_string());
    args.push("json".to_string());
    assert(text_views(args@) =~= seq!["images"@, "--format"@, "json"@]);
    args
}

/// The words that stand for a repository, a tag or a digest that is not
/// there.
pub open spec fn none_marker() -> Seq<char> {
    "<none>"@
}

/// The repository and the tag of an image.
///
/// Where the engine gives a list of references, the first of them is
/// parted into the two, and an empty list means neither is there.
/// Otherwise they are the repository and the tag that the engine gives,
/// each `<none>` where it gives none.
pub open spec fn repository_and_tag(
    references: Option<Option<Seq<char>>>,
    repository: Option<Seq<char>>,
    tag: Option<Seq<char>>,
) -> (Seq<char>, Seq<char>) {
    match references {
        Some(Some(first)) => repo_tag(first),
        Some(None) => (none_marker(), none_marker()),
        None => (
            match repository {
                Some(r) => r,
                None => none_marker(),
            },
            match tag {
                Some(t) => t,
                None => none_marker(),
            },
        ),
    }
}

/// The repository and the tag of an image. `references` is `None` where
/// the engine gives no list of references, and holds the first reference,
/// if there is one and it is a text, where it gives a list.
pub fn image_repository_and_tag(
    references: &Option<Option<String>>,
    repository: &Option<String>,
    tag: &Option<String>,
) -> (r: (String, String))
    ensures
        (r.0@, r.1@) == repository_and_tag(
            match *references {
                Some(first) => Some(opt_text(first)),
                None => None,
            },
            opt_text(*repository),
            opt_text(*tag),
        ),
{
    match references {
        Some(Some(first)) => parse_repo_tag(first.as_str()),
        Some(None) => ("<none>".to_string(), "<none>".to_string()),
        None => {
            let repo = match repository {
                Some(r) => r.clone(),
                None => "<none>".to_string(),
            };
            let tag_val = match tag {
                Some(t) => t.clone(),
                None => "<none>".to_string(),
            };
            (repo, tag_val)
        },
    }
}

/// The digest of an image: what the engine gives, unless that is empty
/// or `<none>`.
pub open spec fn real_digest(digest: Option<Seq<char>>) -> Option<Seq<char>> {
    match digest {
        Some(d) => if d.len() > 0 && d != none_marker() {
            Some(d)
        } else {
            None
        },
        None => None,
    }
}

/// The digest of an image: what the engine gives, unless that is empty
/// or `<none>`.
pub fn image_digest(digest: &Option<String>) -> (r: Option<String>)
    ensures
        opt_text(r) == real_digest(opt_text(*digest)),
{
    match digest {
        Some(d) => {
            let chars = str_to_chars(d.as_str());
            let none = str_to_chars("<none>");
            if chars.len() > 0 && !text_eq(chars.as_slice(), none.as_slice()) {
                Some(d.clone())
            } else {
                None
            }
        },
        None => None,
    }
}

/// The format in which Docker writes a time with a zone and its name,
/// such as `2024-01-15 10:30:45 +0000 UTC`.
pub open spec fn docker_time_format() -> Seq<char> {
    "%Y-%m-%d %H:%M:%S %z %Z"@
}

/// A written time in RFC 3339: read as RFC 3339 if that works, else in
/// the format of Docker, else as relaxed RFC 3339 in UTC.
pub open spec fn normalized(timestamp: Seq<char>) -> Option<Seq<char>> {
    first_reading(
        rfc3339_form(timestamp),
        formatted_form(timestamp, docker_time_format()),
        relaxed_form(timestamp),
    )
}

/// The first of three readings of a time that gave something.
pub open spec fn first_reading(
    rfc3339: Option<Seq<char>>,
    docker: Option<Seq<char>>,
    relaxed: Option<Seq<char>>,
) -> Option<Seq<char>> {
    if rfc3339 is Some {
        rfc3339
    } else if docker is Some {
        docker
    } else {
        relaxed
    }
}

/// The first of three readings of a time that gave something: the
/// reading as RFC 3339 wins over the one in the format of Docker, and
/// that one over the relaxed reading.
pub fn choose_reading(rfc3339: Option<String>, docker: Option<String>, relaxed: Option<String>) -> (r:
    Option<String>)
    ensures
        opt_text(r) == first_reading(opt_text(rfc3339), opt_text(docker), opt_text(relaxed)),
{
    if rfc3339.is_some() {
        rfc3339
    } else if docker.is_some() {
        docker
    } else {
        relaxed
    }
}

/// Brings a time, as the engines write it, into RFC 3339. `None` where
/// the time is written in none of the forms that are known.
pub fn normalize_timestamp(timestamp: &str) -> (r: Option<String>)
    ensures
        opt_text(r) == normalized(timestamp@),
{
    let rfc3339 = reformat_rfc3339(timestamp);
    let docker = reformat_with(timestamp, "%Y-%m-%d %H:%M:%S %z %Z");
    let relaxed = reformat_relaxed(timestamp);
    choose_reading(rfc3339, docker, relaxed)
}

/// When an image was made, for the record: the time in RFC 3339 where it
/// can be read, the text as it is where it cannot, and `unknown` where
/// the engine gives none.
pub open spec fn created_text(
    created_at: Option<Seq<char>>,
    normalized: Option<Seq<char>>,
) -> Seq<char> {
    match created_at {
        Some(t) => match normalized {
            Some(n) => n,
            None => t,
        },
        None => "unknown"@,
    }
}

/// When an image was made, for the record, from the time as the engine
/// gives it and from that time in RFC 3339, if it could be read.
pub fn pick_created(created_at: &Option<String>, normalized: Option<String>) -> (r: String)
    ensures
        r@ == created_text(opt_text(*created_at), opt_text(normalized)),
{
    match created_at {
        Some(t) => match normalized {
            Some(n) => n,
            None => t.clone(),
        },
        None => "unknown".to_string(),
    }
}

/// When an image was made, for the record.
pub fn image_created(created_at: &Option<String>) -> (r: String)
    ensures
        r@ == created_text(
            opt_text(*created_at),
            match *created_at {
                Some(t) => normalized(t@),
                None => None,
            },
        ),
{
    let reading = match created_at {
        Some(t) => normalize_timestamp(t.as_str()),
        None => None,
    };
    pick_created(created_at, reading)
}

/// The names under which an image is known, each with the id of the
/// image, in the order in which they are noted.
///
/// A line is `name`, a tab and `id`, each read without the white space
/// around it; a line without a tab tells nothing. The image is known
/// under its name, under the first twelve characters of its id, and under
/// the part of its name before the first colon, unless that part is empty
/// or `<none>`.
pub open spec fn names_of_line(line: Seq<char>) -> Seq<(Seq<char>, Seq<char>)> {
    let parts = split(line, "\t"@);
    let name = trimmed(parts[0]);
    let id = trimmed(parts[1]);
    let short = if id.len() > 12 {
        id.take(12)
    } else {
        id
    };
    let repo = split(name, ":"@)[0];
    if parts.len() < 2 {
        Seq::empty()
    } else if repo.len() > 0 && repo != none_marker() {
        seq![(name, id), (short, id), (repo, id)]
    } else {
        seq![(name, id), (short, id)]
    }
}

/// `map` with each of the pairs added in order, a later pair taking the
/// place of an earlier one under the same name.
pub open spec fn with_pairs(
    map: Map<Seq<char>, Seq<char>>,
    pairs: Seq<(Seq<char>, Seq<char>)>,
) -> Map<Seq<char>, Seq<char>>
    decreases pairs.len(),
{
    if pairs.len() == 0 {
        map
    } else {
        with_pairs(map, pairs.drop_last()).insert(pairs.last().0, pairs.last().1)
    }
}

/// The ids of the images by the names that the lines tell, a later line
/// taking the place of an earlier one.
pub open spec fn name_id_map(all: Seq<Seq<char>>) -> Map<Seq<char>, Seq<char>>
    decreases all.len(),
{
    if all.len() == 0 {
        Map::empty()
    } else {
        with_pairs(name_id_map(all.drop_last()), names_of_line(all.last()))
    }
}

/// The views of the ids in a map from names to ids.
pub open spec fn id_views(map: Map<Seq<char>, String>) -> Map<Seq<char>, Seq<char>> {
    Map::new(|k: Seq<char>| map.contains_key(k), |k: Seq<char>| map[k]@)
}

/// Notes one name of an image.
fn note_name(map: &mut StringHashMap<String>, name: String, id: String)
    ensures
        id_views(final(map)@) == id_views(old(map)@).insert(name@, id@),
{
    map.insert(name, id);
    assert(id_views(map@) =~= id_views(old(map)@).insert(name@, id@));
}

/// Reads the listing of names and ids that `images` prints, one image
/// to a line, into a map from every name of an image to its id.
pub fn image_name_to_id_map(stdout: &str) -> (map: StringHashMap<String>)
    ensures
        id_views(map@) == name_id_map(lines(stdout@)),
{
    let chars = str_to_chars(stdout);
    let tab = str_to_chars("\t");
    let colon = str_to_chars(":");
    let none = str_to_chars("<none>");
    let all = text_lines(chars.as_slice());
    let ghost views = piece_views(all@);
    let mut map: StringHashMap<String> = StringHashMap::new();
    let mut i: usize = 0;
    assert(views.take(0) =~= Seq::<Seq<char>>::empty());
    assert(id_views(map@) =~= Map::<Seq<char>, Seq<char>>::empty());
    while i < all.len()
        invariant
            i <= all.len(),
            views == piece_views(all@),
            tab@ == "\t"@,
            colon@ == ":"@,
            none@ == "<none>"@,
            id_views(map@) == name_id_map(views.take(i as int)),
        decreases all.len() - i,
    {
        assert(views.take(i + 1).drop_last() =~= views.take(i as int));
        assert(views.take(i + 1).last() == all@[i as int]@);
        let ghost before = id_views(map@);
        let ghost pairs = names_of_line(all@[i as int]@);
        let parts = text_split(all[i].as_slice(), tab.as_slice());
        if parts.len() >= 2 {
            assert(piece_views(parts@)[0] == parts@[0]@);
            assert(piece_views(parts@)[1] == parts@[1]@);
            let name = trim(parts[0].as_slice());
            let id = trim(parts[1].as_slice());
            let short = if id.len() > 12 {
                let cut = copy_range(id.as_slice(), 0, 12);
                assert(cut@ =~= id@.take(12));
                cut
            } else {
                let whole = copy_range(id.as_slice(), 0, id.len());
                assert(whole@ =~= id@);
                whole
            };
            let pieces = text_split(name.as_slice(), colon.as_slice());
            assert(piece_views(pieces@)[0] == pieces@[0]@);
            let id_text = chars_to_string(id.as_slice());
            note_name(&mut map, chars_to_string(name.as_slice()), id_text.clone());
            note_name(&mut map, chars_to_string(short.as_slice()), id_text.clone());
            let ghost two = seq![(name@, id@), (short@, id@)];
            assert(two.drop_last() =~= seq![(name@, id@)]);
            assert(seq![(name@, id@)].drop_last() =~= Seq::<(Seq<char>, Seq<char>)>::empty());
            assert(id_views(map@) == with_pairs(before, two)) by {
                reveal_with_fuel(with_pairs, 3);
            }
            if pieces[0].len() > 0 && !text_eq(pieces[0].as_slice(), none.as_slice()) {
                note_name(&mut map, chars_to_string(pieces[0].as_slice()), id_text);
                assert(pairs =~= two.push((pieces@[0]@, id@)));
                assert(pairs.drop_last() =~= two);
            } else {
                assert(pairs =~= two);
            }
        } else {
            assert(pairs =~= Seq::<(Seq<char>, Seq<char>)>::empty());
        }
        i += 1;
    }
    assert(views.take(i as int) =~= views);
    map
}

/// The image that a line of the listing of containers names: what
/// stands before its first tab, without the white space around it.
pub open spec fn image_of_line(line: Seq<char>) -> Seq<char> {
    trimmed(split(line, "\t"@)[0])
}

/// Whether a line tells of a container of the image `id`: it names an
/// image, and `names` knows that name as `id`.
pub open spec fn tells_of_image(
    line: Seq<char>,
    names: Map<Seq<char>, Seq<char>>,
    id: Seq<char>,
) -> bool {
    image_of_line(line).len() > 0 && names.contains_key(image_of_line(line))
        && names[image_of_line(line)] == id
}

/// How many of the lines tell of a container of the image `id`.
pub open spec fn containers_of(
    all: Seq<Seq<char>>,
    names: Map<Seq<char>, Seq<char>>,
    id: Seq<char>,
) -> nat
    decreases all.len(),
{
    if all.len() == 0 {
        0
    } else {
        containers_of(all.drop_last(), names, id) + if tells_of_image(all.last(), names, id) {
            1nat
        } else {
            0nat
        }
    }
}

/// Whether `counts` holds, for every image, how many of the lines tell
/// of one of its containers: no entry for an image without containers,
/// and `u32::MAX` for that many or more.
pub open spec fn counts_match(
    counts: Map<Seq<char>, u32>,
    all: Seq<Seq<char>>,
    names: Map<Seq<char>, Seq<char>>,
) -> bool {
    forall|id: Seq<char>|
        {
            let n = #[trigger] containers_of(all, names, id);
            &&& counts.contains_key(id) <==> n > 0
            &&& counts.contains_key(id) ==> counts[id] == (if n < u32::MAX {
                n
            } else {
                u32::MAX as nat
            })
        }
}

/// Counts the containers of each image, from the listing of containers
/// that `ps` prints, one container to a line, and from the names under
/// which the images are known.
pub fn count_containers(stdout: &str, names: &StringHashMap<String>) -> (counts: StringHashMap<
    u32,
>)
    ensures
        counts_match(counts@, lines(stdout@), id_views(names@)),
{
    let chars = str_to_chars(stdout);
    let tab = str_to_chars("\t");
    let all = text_lines(chars.as_slice());
    let ghost views = piece_views(all@);
    let ghost known = id_views(names@);
    let mut counts: StringHashMap<u32> = StringHashMap::new();
    let mut i: usize = 0;
    assert(views.take(0) =~= Seq::<Seq<char>>::empty());
    while i < all.len()
        invariant
            i <= all.len(),
            views == piece_views(all@),
            known == id_views(names@),
            tab@ == "\t"@,
            counts_match(counts@, views.take(i as int), known),
        decreases all.len() - i,
    {
        assert(views.take(i + 1).drop_last() =~= views.take(i as int));
        assert(views.take(i + 1).last() == all@[i as int]@);
        let ghost before = counts@;
        let ghost seen = views.take(i as int);
        let ghost line = all@[i as int]@;
        let parts = text_split(all[i].as_slice(), tab.as_slice());
        assert(piece_views(parts@)[0] == parts@[0]@);
        let image = chars_to_string(trim(parts[0].as_slice()).as_slice());
        let found: Option<String> = if image.as_str().unicode_len() > 0 {
            match names.get(image.as_str()) {
                Some(id) => Some(id.clone()),
                None => None,
            }
        } else {
            None
        };
        match found {
            Some(id) => {
                assert(tells_of_image(line, known, id@));
                assert(containers_of(seen, known, id@) == containers_of(seen, known, id@));
                let so_far: u32 = match counts.get(id.as_str()) {
                    Some(n) => *n,
                    None => 0,
                };
                let next: u32 = if so_far < u32::MAX {
                    so_far + 1
                } else {
                    so_far
                };
                let ghost key = id@;
                counts.insert(id, next);
                assert forall|other: Seq<char>|
                    {
                        let n = #[trigger] containers_of(views.take(i + 1), known, other);
                        &&& counts@.contains_key(other) <==> n > 0
                        &&& counts@.contains_key(other) ==> counts@[other] == (if n < u32::MAX {
                            n
                        } else {
                            u32::MAX as nat
                        })
                    } by {
                    let all_now = views.take(i + 1);
                    assert(all_now.drop_last() == seen && all_now.last() == line);
                    assert(containers_of(all_now, known, other) == containers_of(
                        seen,
                        known,
                        other,
                    ) + if tells_of_image(line, known, other) {
                        1nat
                    } else {
                        0nat
                    });
                    assert(counts_match(before, seen, known));
                    if other != key {
                        assert(!tells_of_image(line, known, other));
                    }
                }
            },
            None => {
                assert forall|other: Seq<char>|
                    {
                        let n = #[trigger] containers_of(views.take(i + 1), known, other);
                        &&& counts@.contains_key(other) <==> n > 0
                        &&& counts@.contains_key(other) ==> counts@[other] == (if n < u32::MAX {
                            n
                        } else {
                            u32::MAX as nat
                        })
                    } by {
                    let all_now = views.take(i + 1);
                    assert(all_now.drop_last() == seen && all_now.last() == line);
                    assert(containers_of(all_now, known, other) == containers_of(
                        seen,
                        known,
                        other,
                    ) + if tells_of_image(line, known, other) {
                        1nat
                    } else {
                        0nat
                    });
                    assert(counts_match(before, seen, known));
                    assert(!tells_of_image(line, known, other));
                }
            },
        }
        i += 1;
    }
    assert(views.take(i as int) =~= views);
    counts
}

/// How many containers use the image `image_id`: what `counts` holds for
/// it, and `known` where it holds nothing.
pub fn image_containers(image_id: &str, counts: &StringHashMap<u32>, known: u32) -> (n: u32)
    ensures
        n == (if counts@.contains_key(image_id@) {
            counts@[image_id@]
        } else {
            known
        }),
{
    match counts.get(image_id) {
        Some(count) => *count,
        None => known,
    }
}

/// What the engine gives for one image, field by field. A field is
/// `None` where the engine gives none of the kind that is looked for.
#[derive(Debug)]
pub struct RawImage {
    /// The text under `Id`.
    pub id: Option<String>,
    /// The text under `ID`.
    pub id_alt: Option<String>,
    /// Where `RepoTags` is a list: its first entry, if there is one and
    /// it is a text.
    pub repo_tags: Option<Option<String>>,
    /// The text under `Repository`.
    pub repository: Option<String>,
    /// The text under `Tag`.
    pub tag: Option<String>,
    /// The text under `Digest`.
    pub digest: Option<String>,
    /// The whole number under `Size`.
    pub size: Option<u64>,
    /// The whole number under `VirtualSize`.
    pub virtual_size: Option<u64>,
    /// The text under `CreatedAt`.
    pub created_at: Option<String>,
    /// The whole number under `Containers`.
    pub containers: Option<u64>,
    /// What stands under `Labels`.
    pub labels: RawLabels,
}

/// The image that the engine tells of.
///
/// The id is what stands under `Id`, else under `ID`; the size what
/// stands under `Size`, else under `VirtualSize`, else zero. The number
/// of containers is cut down to 32 bits, and is zero where none is given.
pub fn parse_image(raw: RawImage) -> (image: Image)
    ensures
        image.id@ == text_or_empty(first_of(opt_text(raw.id), opt_text(raw.id_alt))),
        (image.repository@, image.tag@) == repository_and_tag(
            match raw.repo_tags {
                Some(first) => Some(opt_text(first)),
                None => None,
            },
            opt_text(raw.repository),
            opt_text(raw.tag),
        ),
        opt_text(image.digest) == real_digest(opt_text(raw.digest)),
        image.size == (match first_of(raw.size, raw.virtual_size) {
            Some(size) => size,
            None => 0,
        }),
        image.created@ == created_text(
            opt_text(raw.created_at),
            match raw.created_at {
                Some(t) => normalized(t@),
                None => None,
            },
        ),
        image.containers == (match raw.containers {
            Some(n) => n % 0x1_0000_0000,
            None => 0,
        }),
{
    let (repository, tag) = image_repository_and_tag(&raw.repo_tags, &raw.repository, &raw.tag);
    let digest = image_digest(&raw.digest);
    let created = image_created(&raw.created_at);
    let labels = label_map(labels_from_raw(&raw.labels));
    let id = match raw.id {
        Some(id) => id,
        None => unwrap_text(raw.id_alt),
    };
    let size = match raw.size {
        Some(size) => size,
        None => match raw.virtual_size {
            Some(size) => size,
            None => 0,
        },
    };
    let containers: u32 = match raw.containers {
        Some(n) => (n % 0x1_0000_0000) as u32,
        None => 0,
    };
    Image { id, repository, tag, digest, size, created, containers, labels }
}

} // verus!
