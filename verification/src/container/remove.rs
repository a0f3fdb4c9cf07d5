//! Removing containers: the options, the arguments they turn into, and
//! the summing up of several removals.

use crate::text::text_views;
use vstd::prelude::*;
use vstd::string::StringExecFns;

verus! {

/// How to remove a container.
#[derive(Debug, Clone, Copy, PartialEq, Eq, Structural)]
pub struct RemoveOptions {
    /// Remove the container even while it runs.
    pub force: bool,
    /// Remove its anonymous volumes too.
    pub volumes: bool,
}

impl Default for RemoveOptions {
    /// Neither forced nor with volumes.
    fn default() -> (options: RemoveOptions)
        ensures
            !options.force,
            !options.volumes,
    {
        RemoveOptions { force: false, volumes: false }
    }
}

/// What pruning the stopped containers did.
#[derive(Debug)]
pub struct PruneResult {
    /// The containers that were deleted.
    pub containers_deleted: Option<Vec<String>>,
    /// The disk space that was won, in bytes.
    pub space_reclaimed: u64,
}

/// The arguments that remove a container: `rm`, `--force` and
/// `--volumes` as the options ask, then the container.
pub open spec fn removal_args(container_id: Seq<char>, options: RemoveOptions) -> Seq<Seq<char>> {
    seq!["rm"@] + (if options.force {
        seq!["--force"@]
    } else {
        Seq::empty()
    }) + (if options.volumes {
        seq!["--volumes"@]
    } else {
        Seq::empty()
    }) + seq![container_id]
}

/// The arguments that remove the container `container_id`.
pub fn remove_args(container_id: &str, options: RemoveOptions) -> (args: Vec<String>)
    ensures
        text_views(args@) == removal_args(container_id@, options),
{
    let mut args: Vec<String> = Vec::new();
    args.push("rm".to_string());
    if options.force {
        args.push("--force".to_string());
    }
    if options.volumes {
        args.push("--volumes".to_string());
    }
    args.push(container_id.to_string());
    assert(text_views(args@) =~= removal_args(container_id@, options));
    args
}

/// The arguments that prune the stopped containers.
pub fn prune_args() -> (args: Vec<String>)
    ensures
        text_views(args@) == seq!["container"@, "prune"@, "--force"@, "--format"@, "json"@],
{
    let mut args: Vec<String> = Vec::new();
    args.push("container".to_string());
    args.push("prune".to_string());
    args.push("--force".to_string());
    args.push("--format".to_string());
    args.push("json".to_string());
    assert(text_views(args@) =~= seq!["container"@, "prune"@, "--force"@, "--format"@, "json"@]);
    args
}

/// One removal that was tried: the id, and `None` if it worked or the
/// message of its failure.
pub type RemovalView = (Seq<char>, Option<Seq<char>>);

/// The views of a list of removals, in order.
pub open spec fn removal_views(v: Seq<(String, Result<(), String>)>) -> Seq<RemovalView> {
    v.map_values(
        |r: (String, Result<(), String>)|
            (
                r.0@,
                match r.1 {
                    Ok(_) => None,
                    Err(message) => Some(message@),
                },
            ),
    )
}

/// The ids whose removal worked, in order.
pub open spec fn removed_ids(removals: Seq<RemovalView>) -> Seq<Seq<char>>
    decreases removals.len(),
{
    if removals.len() == 0 {
        Seq::empty()
    } else if removals.last().1 is None {
        removed_ids(removals.drop_last()).push(removals.last().0)
    } else {
        removed_ids(removals.drop_last())
    }
}

/// How many of the removals failed.
pub open spec fn failure_count(removals: Seq<RemovalView>) -> nat
    decreases removals.len(),
{
    if removals.len() == 0 {
        0
    } else {
        failure_count(removals.drop_last()) + if removals.last().1 is Some {
            1nat
        } else {
            0nat
        }
    }
}

/// The lines `id: message` of the removals that failed, joined by line
/// breaks.
pub open spec fn failure_lines(removals: Seq<RemovalView>) -> Seq<char>
    decreases removals.len(),
{
    if removals.len() == 0 {
        Seq::empty()
    } else {
        let before = failure_lines(removals.drop_last());
        match removals.last().1 {
            None => before,
            Some(message) => (if failure_count(removals.drop_last()) > 0 {
                before + "\n"@
            } else {
                before
            }) + removals.last().0 + ": "@ + message,
        }
    }
}

/// What several removals come to: the ids that were removed if every
/// removal worked, else one message that names what was to be removed
/// and lists each failure as `id: message`.
pub open spec fn removal_summary(
    what: Seq<char>,
    removals: Seq<RemovalView>,
) -> Result<Seq<Seq<char>>, Seq<char>> {
    if failure_count(removals) == 0 {
        Ok(removed_ids(removals))
    } else {
        Err("Failed to remove some "@ + what + ":\n"@ + failure_lines(removals))
    }
}

/// Sums up several removals, each given by its id and by what came of
/// it. `what` names what was removed, `containers` or `images`.
pub fn summarize_removals(what: &str, removals: &Vec<(String, Result<(), String>)>) -> (r: Result<
    Vec<String>,
    String,
>)
    ensures
        match r {
            Ok(removed) => removal_summary(what@, removal_views(removals@)) == Ok::<
                Seq<Seq<char>>,
                Seq<char>,
            >(text_views(removed@)),
            Err(message) => removal_summary(what@, removal_views(removals@)) == Err::<
                Seq<Seq<char>>,
                Seq<char>,
            >(message@),
        },
{
    let ghost views = removal_views(removals@);
    let mut removed: Vec<String> = Vec::new();
    let mut lines = String::new();
    let mut failed: usize = 0;
    let mut i: usize = 0;
    assert(views.take(0) =~= Seq::<RemovalView>::empty());
    while i < removals.len()
        invariant
            i <= removals.len(),
            views == removal_views(removals@),
            text_views(removed@) == removed_ids(views.take(i as int)),
            lines@ == failure_lines(views.take(i as int)),
            failed == failure_count(views.take(i as int)),
            failed <= i,
        decreases removals.len() - i,
    {
        assert(views.take(i + 1).drop_last() =~= views.take(i as int));
        assert(views.take(i + 1).last() == views[i as int]);
        assert(views[i as int].0 == removals@[i as int].0@);
        match &removals[i].1 {
            Ok(_) => {
                assert(views[i as int].1 is None);
                let ghost before = text_views(removed@);
                removed.push(removals[i].0.clone());
                assert(text_views(removed@) =~= before.push(removals@[i as int].0@));
            },
            Err(message) => {
                assert(views[i as int].1 == Some(message@));
                if failed > 0 {
                    lines.append("\n");
                }
                lines.append(removals[i].0.as_str());
                lines.append(": ");
                lines.append(message.as_str());
                failed += 1;
            },
        }
        i += 1;
    }
    assert(views.take(i as int) =~= views);
    if failed == 0 {
        Ok(removed)
    } else {
        let mut message = "Failed to remove some ".to_string();
        message.append(what);
        message.append(":\n");
        message.append(lines.as_str());
        Err(message)
    }
}

} // verus!
