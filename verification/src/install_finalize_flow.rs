//! Pieces of finalising an install: what a selection means, where conflicts
//! are staged, and the candidates to deploy.
use vstd::prelude::*;
use crate::install_planning::DeployCandidate;
use crate::install_scan::DeployOp;
use crate::paths::{join_path, path_join};
use crate::text::{concat2, i64_to_string, signed_decimal, str_eq};

verus! {

/// No folders, or only `.`, means every top-level folder.
pub fn is_scan_all_selection(selected_folders: &[String]) -> (r: bool)
    ensures
        r == (selected_folders@.len() == 0 || (selected_folders@.len() == 1
            && selected_folders@[0]@ == "."@)),
{
    selected_folders.len() == 0 || (selected_folders.len() == 1 && str_eq(
        selected_folders[0].as_str(),
        ".",
    ))
}

pub open spec fn conflict_staging_spec(staging_dir: Seq<char>, timestamp_millis: i64) -> Seq<char> {
    path_join(staging_dir, "conflict_"@ + signed_decimal(timestamp_millis as int))
}

/// `<staging>/conflict_<timestamp>`.
pub fn conflict_staging_path(staging_dir: &str, timestamp_millis: i64) -> (r: String)
    ensures
        r@ == conflict_staging_spec(staging_dir@, timestamp_millis),
{
    let stamp = i64_to_string(timestamp_millis);
    let name = concat2("conflict_", stamp.as_str());
    join_path(staging_dir, name.as_str())
}

/// `c` is the candidate made from `op`: same source and name, the mod id read
/// from the source folder, and whether `<mods>/<name>` exists.
pub open spec fn candidate_of<R, E>(op: DeployOp, mods_path: Seq<char>, read_mod_id: R, dest_exists: E, c: DeployCandidate) -> bool
    where
        R: Fn(&str) -> Option<String>,
        E: Fn(&str) -> bool,
{
    &&& c.source == op.source
    &&& c.dest_name == op.dest_name
    &&& exists|s: &str| s@ == op.source@ && call_ensures(read_mod_id, (s,), c.mod_id)
    &&& exists|d: &str|
        d@ == path_join(mods_path, op.dest_name@) && call_ensures(dest_exists, (d,), c.dest_exists)
}

/// One candidate per deploy operation, in order.
pub fn build_deploy_candidates_with<R, E>(
    ops: Vec<DeployOp>,
    mods_path: &str,
    read_mod_id: R,
    dest_exists: E,
) -> (r: Vec<DeployCandidate>)
    where
        R: Fn(&str) -> Option<String>,
        E: Fn(&str) -> bool,
    requires
        forall|s: &str| call_requires(read_mod_id, (s,)),
        forall|s: &str| call_requires(dest_exists, (s,)),
    ensures
        r@.len() == ops@.len(),
        forall|i: int|
            0 <= i < r@.len() ==> candidate_of(
                #[trigger] ops@[i],
                mods_path@,
                read_mod_id,
                dest_exists,
                r@[i],
            ),
{
    let ghost orig = ops@;
    let mut rest = ops;
    let mut out: Vec<DeployCandidate> = Vec::new();
    while rest.len() > 0
        invariant
            forall|s: &str| call_requires(read_mod_id, (s,)),
            forall|s: &str| call_requires(dest_exists, (s,)),
            out@.len() <= orig.len(),
            rest@ == orig.subrange(out@.len() as int, orig.len() as int),
            forall|i: int|
                0 <= i < out@.len() ==> candidate_of(
                    #[trigger] orig[i],
                    mods_path@,
                    read_mod_id,
                    dest_exists,
                    out@[i],
                ),
        decreases rest.len(),
    {
        let ghost done = out@.len() as int;
        let op = rest.remove(0);
        assert(op == orig[done]);
        let src_str = op.source.as_str();
        let mod_id = read_mod_id(src_str);
        let dest = join_path(mods_path, op.dest_name.as_str());
        let dest_str = dest.as_str();
        let exists = dest_exists(dest_str);
        let c = DeployCandidate { mod_id, dest_exists: exists, source: op.source, dest_name: op.dest_name };
        assert(call_ensures(read_mod_id, (src_str,), c.mod_id));
        assert(dest_str@ == path_join(mods_path@, orig[done].dest_name@));
        assert(call_ensures(dest_exists, (dest_str,), c.dest_exists));
        assert(candidate_of(orig[done], mods_path@, read_mod_id, dest_exists, c));
        out.push(c);
        assert(rest@ =~= orig.subrange(out@.len() as int, orig.len() as int));
    }
    out
}

} // verus!
