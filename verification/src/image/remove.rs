//! Removing images: the options, the arguments they turn into, and the
//! containers that stand in the way.

use crate::text::{
    chars_to_string, lines, piece_views, str_to_chars, text_lines, text_views,
};
use vstd::prelude::*;
use vstd::string::StringExecFns;

verus! {

/// How to remove an image.
#[derive(Debug, Clone, Copy, PartialEq, Eq, Structural)]
pub struct RemoveImageOptions {
    /// Remove the image even while containers use it.
    pub force: bool,
    /// Keep the untagged parents of the image.
    pub no_prune: bool,
}

impl Default for RemoveImageOptions {
    /// Neither forced nor keeping parents.
    fn default() -> (options: RemoveImageOptions)
        ensures
            !options.force,
            !options.no_prune,
    {
        RemoveImageOptions { force: false, no_prune: false }
    }
}

/// The arguments that remove an image: `rmi`, `--force` and `--no-prune`
/// as the options ask, then the image.
pub open spec fn removal_args(image_id: Seq<char>, options: RemoveImageOptions) -> Seq<
    Seq<char>,
> {
    seq!["rmi"@] + (if options.force {
        seq!["--force"@]
    } else {
        Seq::empty()
    }) + (if options.no_prune {
        seq!["--no-prune"@]
    } else {
        Seq::empty()
    }) + seq![image_id]
}

/// The arguments that remove the image `image_id`.
pub fn remove_args(image_id: &str, options: &RemoveImageOptions) -> (args: Vec<String>)
    ensures
        text_views(args@) == removal_args(image_id@, *options),
{
    let mut args: Vec<String> = Vec::new();
    args.push("rmi".to_string());
    if options.force {
        args.push("--force".to_string());
    }
    if options.no_prune {
        args.push("--no-prune".to_string());
    }
    args.push(image_id.to_string());
    assert(text_views(args@) =~= removal_args(image_id@, *options));
    args
}

/// The arguments that list the ids of the containers made from the
/// image `image_id`, whether they run or not.
pub fn ancestor_args(image_id: &str) -> (args: Vec<String>)
    ensures
        text_views(args@) == seq![
            "ps"@,
            "-a"@,
            "--filter"@,
            "ancestor="@ + image_id@,
            "--format"@,
            "{{.ID}}"@,
        ],
{
    let mut filter = "ancestor=".to_string();
    filter.append(image_id);
    let mut args: Vec<String> = Vec::new();
    args.push("ps".to_string());
    args.push("-a".to_string());
    args.push("--filter".to_string());
    args.push(filter);
    args.push("--format".to_string());
    args.push("{{.ID}}".to_string());
    assert(text_views(args@) =~= seq![
        "ps"@,
        "-a"@,
        "--filter"@,
        "ancestor="@ + image_id@,
        "--format"@,
        "{{.ID}}"@,
    ]);
    args
}

/// The lines that are not empty, in order.
pub open spec fn filled(all: Seq<Seq<char>>) -> Seq<Seq<char>>
    decreases all.len(),
{
    if all.len() == 0 {
        Seq::empty()
    } else if all.last().len() > 0 {
        filled(all.drop_last()).push(all.last())
    } else {
        filled(all.drop_last())
    }
}

/// The ids that a listing holds: its lines that are not empty.
pub fn listed_ids(stdout: &str) -> (ids: Vec<String>)
    ensures
        text_views(ids@) == filled(lines(stdout@)),
{
    let chars = str_to_chars(stdout);
    let all = text_lines(chars.as_slice());
    let ghost views = piece_views(all@);
    let mut ids: Vec<String> = Vec::new();
    let mut i: usize = 0;
    assert(views.take(0) =~= Seq::<Seq<char>>::empty());
    while i < all.len()
        invariant
            i <= all.len(),
            views == piece_views(all@),
            text_views(ids@) == filled(views.take(i as int)),
        decreases all.len() - i,
    {
        assert(views.take(i + 1).drop_last() =~= views.take(i as int));
        assert(views.take(i + 1).last() == all@[i as int]@);
        if all[i].len() > 0 {
            let ghost before = text_views(ids@);
            ids.push(chars_to_string(all[i].as_slice()));
            assert(text_views(ids@) =~= before.push(all@[i as int]@));
        }
        i += 1;
    }
    assert(views.take(i as int) =~= views);
    ids
}

} // verus!
