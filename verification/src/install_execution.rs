//! Carrying out a planned install: each action deploys a mod folder, either
//! straight into the mods folder or aside into the conflict staging folder.
use vstd::prelude::*;
use crate::install_planning::PlannedInstallAction;
use crate::install_service::io_error_to_string;
use crate::models::{first_index, is_first_index, lemma_first_index_is, lemma_first_index_none, ModConflictInfo, ModInfo, ModInstallInfo};
use crate::paths::{file_name, file_name_spec};
use crate::text::{append_str, owned};

verus! {

/// An installed mod as (name, path).
pub open spec fn success_view(s: ModInstallInfo) -> (Seq<char>, Seq<char>) {
    (s.name@, s.temp_path@)
}

/// A staged conflict as (new name, staged path, old folder name).
pub open spec fn conflict_view(c: ModConflictInfo) -> (Seq<char>, Seq<char>, Seq<char>) {
    (c.new_mod_name@, c.temp_path@, c.old_mod_folder_name@)
}

pub open spec fn successes_view(s: Seq<ModInstallInfo>) -> Seq<(Seq<char>, Seq<char>)> {
    s.map_values(|x: ModInstallInfo| success_view(x))
}

pub open spec fn conflicts_view(c: Seq<ModConflictInfo>) -> Seq<(Seq<char>, Seq<char>, Seq<char>)> {
    c.map_values(|x: ModConflictInfo| conflict_view(x))
}

pub open spec fn deploy_failed_message(dest_name: Seq<char>, e: Seq<char>) -> Seq<char> {
    "Failed to deploy "@ + dest_name + ": "@ + e
}

/// `deploy(source, dest)` can give `out`.
pub open spec fn deployed<D: Fn(&str, &str) -> Result<(), String>>(
    deploy: D,
    source: Seq<char>,
    dest: Seq<char>,
    out: Result<(), String>,
) -> bool {
    exists|x: &str, y: &str|
        #![trigger call_ensures(deploy, (x, y), out)]
        x@ == source && y@ == dest && call_ensures(deploy, (x, y), out)
}

/// The progress of applying actions: the installed and staged mods so far,
/// or the error that stopped it.
pub type ApplyView = Result<(Seq<(Seq<char>, Seq<char>)>, Seq<(Seq<char>, Seq<char>, Seq<char>)>), Seq<char>>;

/// What one more action does to the progress. After an error nothing
/// happens. A conflict makes sure the staging folder exists (a failure to
/// create it stops with that error, whose text comes from the system),
/// deploys into it, ignores how that went
/// and records the conflict. A direct deploy records the mod, or stops with
/// `Failed to deploy <name>: <error>`.
pub open spec fn apply_step<E, C, D>(
    a: PlannedInstallAction,
    staging: Seq<char>,
    path_exists: E,
    create_dir_all: C,
    deploy: D,
    before: ApplyView,
    after: ApplyView,
) -> bool
    where
        E: Fn(&str) -> bool,
        C: Fn(&str) -> Result<(), std::io::Error>,
        D: Fn(&str, &str) -> Result<(), String>,
{
    match before {
        Err(_) => after == before,
        Ok((s, c)) => match a {
            PlannedInstallAction::StageConflict { source, staged_path, new_mod_name, old_mod_folder_name } => {
                let recorded: ApplyView = Ok((s, c.push((new_mod_name@, staged_path@, old_mod_folder_name@))));
                let deploy_and_record = exists|dep: Result<(), String>|
                    #![trigger deployed(deploy, source@, staged_path@, dep)]
                    deployed(deploy, source@, staged_path@, dep) && after == recorded;
                exists|p: &str, present: bool|
                    #![trigger call_ensures(path_exists, (p,), present)]
                    p@ == staging && call_ensures(path_exists, (p,), present) && if present {
                        deploy_and_record
                    } else {
                        exists|q: &str, created: Result<(), std::io::Error>|
                            #![trigger call_ensures(create_dir_all, (q,), created)]
                            q@ == staging && call_ensures(create_dir_all, (q,), created) && match created {
                                Err(_) => after is Err,
                                Ok(()) => deploy_and_record,
                            }
                    }
            },
            PlannedInstallAction::DeployDirect { source, final_dest_path, dest_name } => exists|
                dep: Result<(), String>,
            |
                #![trigger deployed(deploy, source@, final_dest_path@, dep)]
                deployed(deploy, source@, final_dest_path@, dep) && match dep {
                    Err(e) => after == Err::<
                        (Seq<(Seq<char>, Seq<char>)>, Seq<(Seq<char>, Seq<char>, Seq<char>)>),
                        Seq<char>,
                    >(deploy_failed_message(dest_name@, e@)),
                    Ok(()) => after == Ok::<
                        (Seq<(Seq<char>, Seq<char>)>, Seq<(Seq<char>, Seq<char>, Seq<char>)>),
                        Seq<char>,
                    >((s.push((dest_name@, final_dest_path@)), c)),
                },
        },
    }
}

/// Nothing installed or staged yet.
pub open spec fn apply_start() -> ApplyView {
    Ok((Seq::empty(), Seq::empty()))
}

/// `trace` is a run of `actions`: it starts with nothing done and each
/// action takes one entry to the next.
pub open spec fn apply_trace<E, C, D>(
    actions: Seq<PlannedInstallAction>,
    staging: Seq<char>,
    path_exists: E,
    create_dir_all: C,
    deploy: D,
    trace: Seq<ApplyView>,
) -> bool
    where
        E: Fn(&str) -> bool,
        C: Fn(&str) -> Result<(), std::io::Error>,
        D: Fn(&str, &str) -> Result<(), String>,
{
    &&& trace.len() == actions.len() + 1
    &&& trace[0] == apply_start()
    &&& forall|k: int|
        0 <= k < actions.len() ==> apply_step(
            #[trigger] actions[k],
            staging,
            path_exists,
            create_dir_all,
            deploy,
            trace[k],
            trace[k + 1],
        )
}

/// Applying `actions` in order, from nothing installed, can end in `out`.
pub open spec fn apply_actions<E, C, D>(
    actions: Seq<PlannedInstallAction>,
    staging: Seq<char>,
    path_exists: E,
    create_dir_all: C,
    deploy: D,
    out: ApplyView,
) -> bool
    where
        E: Fn(&str) -> bool,
        C: Fn(&str) -> Result<(), std::io::Error>,
        D: Fn(&str, &str) -> Result<(), String>,
{
    exists|trace: Seq<ApplyView>|
        #![trigger apply_trace(actions, staging, path_exists, create_dir_all, deploy, trace)]
        apply_trace(actions, staging, path_exists, create_dir_all, deploy, trace) && trace.last() == out
}

/// The view of the progress made so far.
pub open spec fn progress_view(s: Seq<ModInstallInfo>, c: Seq<ModConflictInfo>) -> ApplyView {
    Ok((successes_view(s), conflicts_view(c)))
}

/// The view of an outcome.
pub open spec fn outcome_view(r: Result<(Vec<ModInstallInfo>, Vec<ModConflictInfo>), String>) -> ApplyView {
    match r {
        Ok((s, c)) => progress_view(s@, c@),
        Err(e) => Err(e@),
    }
}

/// Applies the planned actions in order and lists the mods installed and the
/// conflicts staged; the first failure (creating the staging folder, or a
/// direct deploy) ends it with its error.
pub fn apply_planned_install_actions<E, C, D>(
    actions: Vec<PlannedInstallAction>,
    conflict_staging_path: &str,
    path_exists: E,
    create_dir_all: C,
    deploy_structure_recursive: D,
) -> (r: Result<(Vec<ModInstallInfo>, Vec<ModConflictInfo>), String>)
    where
        E: Fn(&str) -> bool,
        C: Fn(&str) -> Result<(), std::io::Error>,
        D: Fn(&str, &str) -> Result<(), String>,
    requires
        forall|a: &str| call_requires(path_exists, (a,)),
        forall|a: &str| call_requires(create_dir_all, (a,)),
        forall|a: &str, b: &str| call_requires(deploy_structure_recursive, (a, b)),
    ensures
        apply_actions(
            actions@,
            conflict_staging_path@,
            path_exists,
            create_dir_all,
            deploy_structure_recursive,
            outcome_view(r),
        ),
{
    let ghost staging = conflict_staging_path@;
    let mut successes: Vec<ModInstallInfo> = Vec::new();
    let mut conflicts: Vec<ModConflictInfo> = Vec::new();
    let n = actions.len();
    let mut i: usize = 0;
    let ghost mut trace: Seq<ApplyView> = seq![apply_start()];
    assert(successes_view(successes@) =~= Seq::<(Seq<char>, Seq<char>)>::empty());
    assert(conflicts_view(conflicts@) =~= Seq::<(Seq<char>, Seq<char>, Seq<char>)>::empty());
    while i < n
        invariant
            n == actions@.len(),
            i <= n,
            staging == conflict_staging_path@,
            forall|a: &str| call_requires(path_exists, (a,)),
            forall|a: &str| call_requires(create_dir_all, (a,)),
            forall|a: &str, b: &str| call_requires(deploy_structure_recursive, (a, b)),
            trace.len() == i + 1,
            trace[0] == apply_start(),
            trace[i as int] == progress_view(successes@, conflicts@),
            forall|k: int|
                0 <= k < i ==> apply_step(
                    #[trigger] actions@[k],
                    staging,
                    path_exists,
                    create_dir_all,
                    deploy_structure_recursive,
                    trace[k],
                    trace[k + 1],
                ),
        decreases n - i,
    {
        let ghost before = progress_view(successes@, conflicts@);
        let ghost mut after: ApplyView = before;
        let mut failed: Option<String> = None;
        match &actions[i] {
            PlannedInstallAction::StageConflict { source, staged_path, new_mod_name, old_mod_folder_name } => {
                let present = path_exists(conflict_staging_path);
                assert(call_ensures(path_exists, (conflict_staging_path,), present));
                let mut ready = true;
                if !present {
                    let created = create_dir_all(conflict_staging_path);
                    assert(call_ensures(create_dir_all, (conflict_staging_path,), created));
                    if let Err(e) = created {
                        let m = io_error_to_string(e);
                        proof {
                            after = Err(m@);
                        }
                        failed = Some(m);
                        ready = false;
                    }
                }
                if ready {
                    let src = source.as_str();
                    let dst = staged_path.as_str();
                    let dep = deploy_structure_recursive(src, dst);
                    assert(call_ensures(deploy_structure_recursive, (src, dst), dep));
                    assert(deployed(deploy_structure_recursive, source@, staged_path@, dep));
                    let ghost conflicts_before = conflicts@;
                    conflicts.push(
                        ModConflictInfo {
                            new_mod_name: owned(new_mod_name.as_str()),
                            temp_path: owned(staged_path.as_str()),
                            old_mod_folder_name: owned(old_mod_folder_name.as_str()),
                        },
                    );
                    proof {
                        assert(conflicts@.drop_last() =~= conflicts_before);
                        assert(conflicts_view(conflicts@) =~= conflicts_view(conflicts_before).push(
                            conflict_view(conflicts@.last()),
                        ));
                        after = progress_view(successes@, conflicts@);
                    }
                }
            },
            PlannedInstallAction::DeployDirect { source, final_dest_path, dest_name } => {
                let src = source.as_str();
                let dst = final_dest_path.as_str();
                let dep = deploy_structure_recursive(src, dst);
                assert(call_ensures(deploy_structure_recursive, (src, dst), dep));
                assert(deployed(deploy_structure_recursive, source@, final_dest_path@, dep));
                match dep {
                    Err(e) => {
                        let mut m = owned("Failed to deploy ");
                        append_str(&mut m, dest_name.as_str());
                        append_str(&mut m, ": ");
                        append_str(&mut m, e.as_str());
                        proof {
                            after = Err(m@);
                        }
                        failed = Some(m);
                    },
                    Ok(()) => {
                        let ghost successes_before = successes@;
                        successes.push(
                            ModInstallInfo {
                                name: owned(dest_name.as_str()),
                                temp_path: owned(final_dest_path.as_str()),
                            },
                        );
                        proof {
                            assert(successes@.drop_last() =~= successes_before);
                            assert(successes_view(successes@) =~= successes_view(successes_before).push(
                                success_view(successes@.last()),
                            ));
                            after = progress_view(successes@, conflicts@);
                        }
                    },
                }
            },
        }
        assert(apply_step(
            actions@[i as int],
            staging,
            path_exists,
            create_dir_all,
            deploy_structure_recursive,
            before,
            after,
        ));
        if let Some(m) = failed {
            proof {
                assert(after == Err::<
                    (Seq<(Seq<char>, Seq<char>)>, Seq<(Seq<char>, Seq<char>, Seq<char>)>),
                    Seq<char>,
                >(m@));
                assert(apply_step(
                    actions@[i as int],
                    staging,
                    path_exists,
                    create_dir_all,
                    deploy_structure_recursive,
                    after,
                    after,
                ));
                let full = Seq::new(
                    (n + 1) as nat,
                    |k: int| if k <= i { trace[k] } else { after },
                );
                assert forall|k: int| 0 <= k < n implies apply_step(
                    #[trigger] actions@[k],
                    staging,
                    path_exists,
                    create_dir_all,
                    deploy_structure_recursive,
                    full[k],
                    full[k + 1],
                ) by {
                    if k > i {
                        assert(full[k] == after && full[k + 1] == after);
                    }
                }
                assert(apply_trace(
                    actions@,
                    staging,
                    path_exists,
                    create_dir_all,
                    deploy_structure_recursive,
                    full,
                ));
            }
            return Err(m);
        }
        proof {
            trace = trace.push(after);
        }
        i = i + 1;
    }
    assert(apply_trace(
        actions@,
        staging,
        path_exists,
        create_dir_all,
        deploy_structure_recursive,
        trace,
    ));
    Ok((successes, conflicts))
}

/// The id-to-folder table as pairs of texts.
pub open spec fn table_view(t: Seq<(String, String)>) -> Seq<(Seq<char>, Seq<char>)> {
    Seq::new(t.len(), |i: int| (t[i].0@, t[i].1@))
}

pub open spec fn table_keys(t: Seq<(Seq<char>, Seq<char>)>) -> Seq<Seq<char>> {
    Seq::new(t.len(), |i: int| t[i].0)
}

/// Records `folder` for `id`: replaces the folder of the entry with that id,
/// or adds an entry at the end.
pub open spec fn upsert(t: Seq<(Seq<char>, Seq<char>)>, id: Seq<char>, folder: Seq<char>) -> Seq<
    (Seq<char>, Seq<char>),
> {
    let i = first_index(table_keys(t), id);
    if i >= 0 {
        t.update(i, (id, folder))
    } else {
        t.push((id, folder))
    }
}

/// The table of the first `n` mod folders: each folder with a mod id in its
/// info and a name is recorded under that id, a later folder replacing an
/// earlier one of the same id.
pub open spec fn installed_table(paths: Seq<String>, infos: Seq<Option<ModInfo>>, n: nat) -> Seq<
    (Seq<char>, Seq<char>),
>
    decreases n,
{
    if n == 0 {
        Seq::empty()
    } else {
        let t = installed_table(paths, infos, (n - 1) as nat);
        match infos[n - 1] {
            Some(info) => match (info.mod_id, file_name_spec(paths[n - 1]@)) {
                (Some(id), Some(name)) => upsert(t, id@, name),
                _ => t,
            },
            None => t,
        }
    }
}

/// `read_mod_info` can give `info` for the folder at `path`.
pub open spec fn read_gave<I: Fn(&str) -> Option<ModInfo>>(read_mod_info: I, path: Seq<char>, info: Option<ModInfo>) -> bool {
    exists|p: &str| #![trigger call_ensures(read_mod_info, (p,), info)] p@ == path && call_ensures(read_mod_info, (p,), info)
}

pub(crate) fn upsert_pair(table: &mut Vec<(String, String)>, id: String, folder: String)
    ensures
        table_view(final(table)@) == upsert(table_view(old(table)@), id@, folder@),
{
    let ghost before = table_view(table@);
    let mut i: usize = 0;
    while i < table.len()
        invariant
            i <= table@.len(),
            before == table_view(table@),
            table@ == old(table)@,
            forall|k: int| 0 <= k < i ==> table_keys(before)[k] != id@,
        decreases table@.len() - i,
    {
        if crate::text::str_eq(table[i].0.as_str(), id.as_str()) {
            proof {
                assert(is_first_index(table_keys(before), id@, i as int));
                lemma_first_index_is(table_keys(before), id@, i as int);
            }
            let ghost fv = folder@;
            let ghost iv = id@;
            assert(before[i as int].0 == iv);
            assert(first_index(table_keys(before), iv) == i as int);
            assert(upsert(before, iv, fv) == before.update(i as int, (iv, fv)));
            table.set(i, (id, folder));
            assert(table_view(table@) =~= before.update(i as int, (iv, fv)));
            return;
        }
        i = i + 1;
    }
    proof {
        lemma_first_index_none(table_keys(before), id@);
    }
    let ghost iv = id@;
    let ghost fv = folder@;
    table.push((id, folder));
    assert(table_view(table@) =~= before.push((iv, fv)));
}

/// `table` is the installed-mods table of the folder `mods_path`: its
/// entries as listed, each with the info read for it.
pub open spec fn collect_outcome<D, I>(
    mods_path: &str,
    list_entry_paths: D,
    read_mod_info: I,
    table: Seq<(Seq<char>, Seq<char>)>,
) -> bool
    where
        D: Fn(&str) -> Vec<String>,
        I: Fn(&str) -> Option<ModInfo>,
{
    exists|paths: Vec<String>, infos: Seq<Option<ModInfo>>|
        #![trigger call_ensures(list_entry_paths, (mods_path,), paths), installed_table(paths@, infos, paths@.len())]
        call_ensures(list_entry_paths, (mods_path,), paths) && infos.len() == paths@.len() && (forall|i: int|
            0 <= i < infos.len() ==> read_gave(read_mod_info, paths@[i]@, #[trigger] infos[i])) && table
            == installed_table(paths@, infos, paths@.len())
}

/// The installed mods by id: for each entry of the mods folder (listed by
/// `list_entry_paths`), the mod id of its info (`read_mod_info`) and its
/// folder name; a later folder replaces an earlier one of the same id.
pub fn collect_installed_mods_by_id<D, I>(mods_path: &str, list_entry_paths: D, read_mod_info: I) -> (r: Vec<
    (String, String),
>)
    where
        D: Fn(&str) -> Vec<String>,
        I: Fn(&str) -> Option<ModInfo>,
    requires
        call_requires(list_entry_paths, (mods_path,)),
        forall|p: &str| call_requires(read_mod_info, (p,)),
    ensures
        collect_outcome(mods_path, list_entry_paths, read_mod_info, table_view(r@)),
{
    let paths = list_entry_paths(mods_path);
    assert(call_ensures(list_entry_paths, (mods_path,), paths));
    let mut table: Vec<(String, String)> = Vec::new();
    let ghost mut infos: Seq<Option<ModInfo>> = Seq::empty();
    let mut i: usize = 0;
    assert(table_view(table@) =~= Seq::<(Seq<char>, Seq<char>)>::empty());
    while i < paths.len()
        invariant
            i <= paths@.len(),
            forall|p: &str| call_requires(read_mod_info, (p,)),
            infos.len() == i,
            forall|k: int| 0 <= k < i ==> read_gave(read_mod_info, paths@[k]@, #[trigger] infos[k]),
            table_view(table@) == installed_table(paths@, infos, i as nat),
        decreases paths@.len() - i,
    {
        let p = paths[i].as_str();
        let info = read_mod_info(p);
        assert(call_ensures(read_mod_info, (p,), info));
        let ghost prev = infos;
        proof {
            assert(read_gave(read_mod_info, paths@[i as int]@, info));
            infos = infos.push(info);
            assert forall|k: int| 0 <= k < i + 1 implies read_gave(read_mod_info, paths@[k]@, #[trigger] infos[k]) by {
                if k < i {
                    assert(infos[k] == prev[k]);
                } else {
                    assert(infos[k] == info);
                }
            }
            assert(installed_table(paths@, infos, i as nat) == installed_table(paths@, prev, i as nat)) by {
                lemma_installed_table_prefix(paths@, prev, infos, i as nat);
            }
        }
        if let Some(mi) = info {
            if let Some(id) = mi.mod_id {
                if let Some(name) = file_name(p) {
                    upsert_pair(&mut table, id, name);
                }
            }
        }
        i = i + 1;
    }
    table
}

proof fn lemma_installed_table_prefix(paths: Seq<String>, a: Seq<Option<ModInfo>>, b: Seq<Option<ModInfo>>, n: nat)
    requires
        n <= a.len(),
        n <= b.len(),
        forall|k: int| 0 <= k < n ==> a[k] == b[k],
    ensures
        installed_table(paths, a, n) == installed_table(paths, b, n),
    decreases n,
{
    if n > 0 {
        lemma_installed_table_prefix(paths, a, b, (n - 1) as nat);
    }
}

} // verus!
