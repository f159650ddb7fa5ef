//! Scanning an unpacked archive for mod roots, and its deploy operations:
//! which folders become mods, named by their last path component, without
//! two of the same name.
use vstd::prelude::*;
use crate::install_finalize_flow::is_scan_all_selection;
use crate::paths::{extension, extension_spec, file_name, file_name_spec, join_path, strip_base, strip_path_prefix};
use crate::text::push_char;
use crate::install_planning::{copy_strings, views};
use crate::text::{eq_ignore_ascii_case, eq_ignore_ascii_case_spec, owned, str_eq};

verus! {

/// Deploy the folder at `source` as a mod named `dest_name`.
#[derive(Debug, Clone)]
pub struct DeployOp {
    pub source: String,
    pub dest_name: String,
}

pub open spec fn op_views(ops: Seq<DeployOp>) -> Seq<(Seq<char>, Seq<char>)> {
    Seq::new(ops.len(), |i: int| (ops[i].source@, ops[i].dest_name@))
}

/// Some operation of `ops` has a name equal to `name` ignoring ASCII case.
pub open spec fn name_in_use(ops: Seq<(Seq<char>, Seq<char>)>, name: Seq<char>) -> bool {
    exists|i: int| 0 <= i < ops.len() && eq_ignore_ascii_case_spec(#[trigger] ops[i].1, name)
}

/// Adds the operation `(source, name)` unless the name is already in use.
pub open spec fn push_unique_spec(ops: Seq<(Seq<char>, Seq<char>)>, source: Seq<char>, name: Seq<char>) -> Seq<
    (Seq<char>, Seq<char>),
> {
    if name_in_use(ops, name) {
        ops
    } else {
        ops.push((source, name))
    }
}

/// Adds the folder `source` under its own name; `None` when it has none.
pub open spec fn add_source_spec(ops: Seq<(Seq<char>, Seq<char>)>, source: Seq<char>) -> Option<
    Seq<(Seq<char>, Seq<char>)>,
> {
    match file_name_spec(source) {
        Some(name) => Some(push_unique_spec(ops, source, name)),
        None => None,
    }
}

/// Adds the folders `sources` in order, stopping at the first without a name.
pub open spec fn add_sources_spec(ops: Seq<(Seq<char>, Seq<char>)>, sources: Seq<Seq<char>>) -> Option<
    Seq<(Seq<char>, Seq<char>)>,
>
    decreases sources.len(),
{
    if sources.len() == 0 {
        Some(ops)
    } else {
        match add_sources_spec(ops, sources.drop_last()) {
            Some(o) => add_source_spec(o, sources.last()),
            None => None,
        }
    }
}

/// What the disk says about the folder of one selected item: whether it
/// exists and, when flattening, the mod roots found under it (relative
/// paths, `.` for the folder itself).
#[derive(Debug, Clone)]
pub struct SourceProbe {
    pub exists: bool,
    pub installable: Vec<String>,
}

/// The folder of a selected item: the root itself for `.`.
pub open spec fn item_source(root: Seq<char>, item: Seq<char>) -> Seq<char> {
    if item == "."@ {
        root
    } else {
        crate::paths::path_join(root, item)
    }
}

/// The folders deployed for one item: none when it does not exist; its
/// nested mod roots when flattening found any; else the folder itself.
pub open spec fn item_sources(root: Seq<char>, item: Seq<char>, flatten: bool, probe: SourceProbe) -> Seq<
    Seq<char>,
> {
    let src = item_source(root, item);
    if !probe.exists {
        Seq::empty()
    } else if flatten && probe.installable@.len() > 0 {
        Seq::new(probe.installable@.len(), |k: int| item_source(src, probe.installable@[k]@))
    } else {
        seq![src]
    }
}

/// The deploy operations of the first `n` items.
pub open spec fn build_ops_spec(
    root: Seq<char>,
    items: Seq<String>,
    flatten: bool,
    probes: Seq<SourceProbe>,
    n: nat,
) -> Option<Seq<(Seq<char>, Seq<char>)>>
    decreases n,
{
    if n == 0 {
        Some(Seq::empty())
    } else {
        match build_ops_spec(root, items, flatten, probes, (n - 1) as nat) {
            Some(o) => add_sources_spec(
                o,
                item_sources(root, items[n - 1]@, flatten, probes[n - 1]),
            ),
            None => None,
        }
    }
}

proof fn lemma_add_sources_none(ops: Seq<(Seq<char>, Seq<char>)>, sources: Seq<Seq<char>>, j: int)
    requires
        0 <= j <= sources.len(),
        add_sources_spec(ops, sources.subrange(0, j)).is_none(),
    ensures
        add_sources_spec(ops, sources).is_none(),
    decreases sources.len() - j,
{
    if j < sources.len() {
        let p = sources.subrange(0, j + 1);
        assert(p.drop_last() =~= sources.subrange(0, j));
        lemma_add_sources_none(ops, sources, j + 1);
    } else {
        assert(sources.subrange(0, j) =~= sources);
    }
}

proof fn lemma_build_ops_none(
    root: Seq<char>,
    items: Seq<String>,
    flatten: bool,
    probes: Seq<SourceProbe>,
    k: nat,
    n: nat,
)
    requires
        k <= n,
        build_ops_spec(root, items, flatten, probes, k).is_none(),
    ensures
        build_ops_spec(root, items, flatten, probes, n).is_none(),
    decreases n - k,
{
    if k < n {
        lemma_build_ops_none(root, items, flatten, probes, k, (n - 1) as nat);
    }
}

pub open spec fn invalid_path_message() -> Seq<char> {
    "Invalid path"@
}

/// The last component of `path`, the name a folder is deployed under.
pub fn folder_name_for_path(path: &str) -> (r: Result<String, String>)
    ensures
        match file_name_spec(path@) {
            Some(name) => r matches Ok(n) && n@ == name,
            None => r matches Err(m) && m@ == invalid_path_message(),
        },
{
    match file_name(path) {
        Some(name) => Ok(name),
        None => Err("Invalid path".to_string()),
    }
}

/// Adds the operation unless an operation of the same name, ignoring ASCII
/// case, is already there.
pub fn push_unique_op(ops: &mut Vec<DeployOp>, source: String, dest_name: String)
    ensures
        op_views(final(ops)@) == push_unique_spec(op_views(old(ops)@), source@, dest_name@),
{
    let ghost before = op_views(ops@);
    let mut i: usize = 0;
    while i < ops.len()
        invariant
            i <= ops@.len(),
            before == op_views(ops@),
            forall|k: int| 0 <= k < i ==> !eq_ignore_ascii_case_spec(#[trigger] before[k].1, dest_name@),
        decreases ops@.len() - i,
    {
        if eq_ignore_ascii_case(ops[i].dest_name.as_str(), dest_name.as_str()) {
            assert(eq_ignore_ascii_case_spec(before[i as int].1, dest_name@));
            return;
        }
        i = i + 1;
    }
    let ghost src = source@;
    let ghost nm = dest_name@;
    ops.push(DeployOp { source, dest_name });
    assert(op_views(ops@) =~= before.push((src, nm)));
}

/// Adds the folder `source` under its last component; fails, changing
/// nothing, when the path has none.
pub fn add_unique_op(ops: &mut Vec<DeployOp>, source: String) -> (r: Result<(), String>)
    ensures
        match add_source_spec(op_views(old(ops)@), source@) {
            Some(o) => r is Ok && op_views(final(ops)@) == o,
            None => r matches Err(m) && m@ == invalid_path_message() && final(ops)@ == old(ops)@,
        },
{
    let dest_name = folder_name_for_path(source.as_str())?;
    push_unique_op(ops, source, dest_name);
    Ok(())
}

/// The deploy operations of the selected items of an unpacked archive at
/// `source_root`, given what the disk says about each item (`probes`, one per
/// item): missing items are skipped; when flattening, an item is replaced by
/// the nested mod roots found under it, if any; each folder is deployed under
/// its last component, skipping names already taken (ignoring ASCII case).
/// Fails at the first folder without a last component.
pub fn build_deploy_ops(
    source_root: &str,
    items_to_process: Vec<String>,
    flatten_paths: bool,
    probes: &Vec<SourceProbe>,
) -> (r: Result<Vec<DeployOp>, String>)
    requires
        probes@.len() == items_to_process@.len(),
    ensures
        match build_ops_spec(
            source_root@,
            items_to_process@,
            flatten_paths,
            probes@,
            items_to_process@.len(),
        ) {
            Some(o) => r matches Ok(ops) && op_views(ops@) == o,
            None => r matches Err(m) && m@ == invalid_path_message(),
        },
        r matches Ok(ops) ==> crate::laws::distinct_op_names(op_views(ops@))
            && crate::laws::ops_named_by_source(op_views(ops@)),
{
    proof {
        crate::laws::lemma_deploy_ops_distinct_names(
            source_root@,
            items_to_process@,
            flatten_paths,
            probes@,
            items_to_process@.len(),
        );
    }
    let ghost items = items_to_process@;
    let mut ops: Vec<DeployOp> = Vec::new();
    let mut k: usize = 0;
    assert(op_views(ops@) =~= Seq::<(Seq<char>, Seq<char>)>::empty());
    while k < items_to_process.len()
        invariant
            k <= items.len(),
            items == items_to_process@,
            probes@.len() == items.len(),
            build_ops_spec(source_root@, items, flatten_paths, probes@, k as nat) == Some(
                op_views(ops@),
            ),
        decreases items.len() - k,
    {
        let item = &items_to_process[k];
        let source_path = if str_eq(item.as_str(), ".") {
            owned(source_root)
        } else {
            join_path(source_root, item.as_str())
        };
        let probe = &probes[k];
        let ghost base = op_views(ops@);
        let ghost srcs = item_sources(source_root@, item@, flatten_paths, *probe);
        assert(source_path@ == item_source(source_root@, item@));
        assert(item@ == items[k as int]@ && *probe == probes@[k as int]);
        if !probe.exists {
            assert(srcs =~= Seq::<Seq<char>>::empty());
            assert(add_sources_spec(base, srcs) == Some(base));
        }
        if probe.exists {
            if flatten_paths && probe.installable.len() > 0 {
                let deep = &probe.installable;
                let mut j: usize = 0;
                assert(srcs.subrange(0, 0) =~= Seq::<Seq<char>>::empty());
                while j < deep.len()
                    invariant
                        k < items.len(),
                        items == items_to_process@,
                        probes@.len() == items.len(),
                        build_ops_spec(source_root@, items, flatten_paths, probes@, k as nat) == Some(base),
                        srcs == item_sources(source_root@, items[k as int]@, flatten_paths, probes@[k as int]),
                        j <= deep@.len(),
                        deep@.len() == srcs.len(),
                        forall|t: int| 0 <= t < srcs.len() ==> #[trigger] srcs[t] == item_source(source_path@, deep@[t]@),
                        add_sources_spec(base, srcs.subrange(0, j as int)) == Some(op_views(ops@)),
                    decreases deep@.len() - j,
                {
                    let rel = &deep[j];
                    let deep_source = if str_eq(rel.as_str(), ".") {
                        owned(source_path.as_str())
                    } else {
                        join_path(source_path.as_str(), rel.as_str())
                    };
                    assert(deep_source@ == srcs[j as int]);
                    let ghost p = srcs.subrange(0, j + 1);
                    assert(p.drop_last() =~= srcs.subrange(0, j as int));
                    let res = add_unique_op(&mut ops, deep_source);
                    if res.is_err() {
                        proof {
                            lemma_add_sources_none(base, srcs, j + 1);
                            lemma_build_ops_none(source_root@, items, flatten_paths, probes@, (k + 1) as nat, items.len());
                        }
                        return Err("Invalid path".to_string());
                    }
                    j = j + 1;
                }
                assert(srcs.subrange(0, j as int) =~= srcs);
            } else {
                assert(srcs =~= seq![source_path@]);
                assert(srcs.drop_last() =~= Seq::<Seq<char>>::empty());
                assert(add_sources_spec(base, srcs.drop_last()) == Some(base));
                let res = add_unique_op(&mut ops, source_path);
                if res.is_err() {
                    proof {
                        lemma_build_ops_none(source_root@, items, flatten_paths, probes@, (k + 1) as nat, items.len());
                    }
                    return Err("Invalid path".to_string());
                }
            }
        }
        assert(add_sources_spec(base, srcs) == Some(op_views(ops@)));
        assert(build_ops_spec(source_root@, items, flatten_paths, probes@, (k + 1) as nat)
            == add_sources_spec(base, srcs));
        k = k + 1;
    }
    Ok(ops)
}

/// A folder name that only a mod's game data tree has (any ASCII case).
pub open spec fn is_game_structure_folder(name: Seq<char>) -> bool {
    ||| eq_ignore_ascii_case_spec(name, "AUDIO"@)
    ||| eq_ignore_ascii_case_spec(name, "FONTS"@)
    ||| eq_ignore_ascii_case_spec(name, "GLOBALS"@)
    ||| eq_ignore_ascii_case_spec(name, "INPUT"@)
    ||| eq_ignore_ascii_case_spec(name, "LANGUAGE"@)
    ||| eq_ignore_ascii_case_spec(name, "MATERIALS"@)
    ||| eq_ignore_ascii_case_spec(name, "METADATA"@)
    ||| eq_ignore_ascii_case_spec(name, "MODELS"@)
    ||| eq_ignore_ascii_case_spec(name, "MUSIC"@)
    ||| eq_ignore_ascii_case_spec(name, "PIPELINES"@)
    ||| eq_ignore_ascii_case_spec(name, "SCENES"@)
    ||| eq_ignore_ascii_case_spec(name, "SHADERS"@)
    ||| eq_ignore_ascii_case_spec(name, "TEXTURES"@)
    ||| eq_ignore_ascii_case_spec(name, "TPFSDICT"@)
    ||| eq_ignore_ascii_case_spec(name, "UI"@)
}

/// A file extension of the game's data files (any ASCII case).
pub open spec fn is_game_file_extension(ext: Seq<char>) -> bool {
    ||| eq_ignore_ascii_case_spec(ext, "exml"@)
    ||| eq_ignore_ascii_case_spec(ext, "mbin"@)
    ||| eq_ignore_ascii_case_spec(ext, "dds"@)
    ||| eq_ignore_ascii_case_spec(ext, "mxml"@)
}

fn game_structure_folder(name: &str) -> (r: bool)
    ensures
        r == is_game_structure_folder(name@),
{
    eq_ignore_ascii_case(name, "AUDIO") || eq_ignore_ascii_case(name, "FONTS") || eq_ignore_ascii_case(
        name,
        "GLOBALS",
    ) || eq_ignore_ascii_case(name, "INPUT") || eq_ignore_ascii_case(name, "LANGUAGE")
        || eq_ignore_ascii_case(name, "MATERIALS") || eq_ignore_ascii_case(name, "METADATA")
        || eq_ignore_ascii_case(name, "MODELS") || eq_ignore_ascii_case(name, "MUSIC")
        || eq_ignore_ascii_case(name, "PIPELINES") || eq_ignore_ascii_case(name, "SCENES")
        || eq_ignore_ascii_case(name, "SHADERS") || eq_ignore_ascii_case(name, "TEXTURES")
        || eq_ignore_ascii_case(name, "TPFSDICT") || eq_ignore_ascii_case(name, "UI")
}

fn game_file_extension(ext: &str) -> (r: bool)
    ensures
        r == is_game_file_extension(ext@),
{
    eq_ignore_ascii_case(ext, "exml") || eq_ignore_ascii_case(ext, "mbin") || eq_ignore_ascii_case(
        ext,
        "dds",
    ) || eq_ignore_ascii_case(ext, "mxml")
}

/// One entry of a scanned folder: its path and whether it is a folder.
#[derive(Debug, Clone)]
pub struct ScanEntry {
    pub path: String,
    pub is_dir: bool,
}

/// The entry shows that its folder is a mod root: a game data folder, or a
/// file with a game data extension.
pub open spec fn marks_mod_root(e: ScanEntry) -> bool {
    if e.is_dir {
        match file_name_spec(e.path@) {
            Some(n) => is_game_structure_folder(n),
            None => false,
        }
    } else {
        match extension_spec(e.path@) {
            Some(x) => is_game_file_extension(x),
            None => false,
        }
    }
}

/// `s` with every `\` replaced by `/`.
pub open spec fn forward_slashes(s: Seq<char>) -> Seq<char> {
    s.map_values(|c: char| if c == '\\' { '/' } else { c })
}

/// The candidate recorded for a mod root: its path relative to the scan's
/// base with forward slashes, `.` for the base itself; none when the base
/// does not lead it.
pub open spec fn root_candidate(dir: Seq<char>, base_dir: Seq<char>) -> Option<Seq<char>> {
    match strip_base(dir, base_dir) {
        None => None,
        Some(rel) => if rel.len() == 0 {
            Some("."@)
        } else {
            Some(forward_slashes(rel))
        },
    }
}

/// What scanning one folder decides.
#[derive(Debug, Clone)]
pub enum ScanDecision {
    /// The folder is a mod root; the candidate to record, if any.
    ModRoot(Option<String>),
    /// The folder is not a mod root; scan these subfolders, in order.
    Descend(Vec<String>),
}

/// The paths of the folders among `entries`, in order.
pub open spec fn subfolders(entries: Seq<ScanEntry>) -> Seq<Seq<char>>
    decreases entries.len(),
{
    if entries.len() == 0 {
        Seq::empty()
    } else if entries.last().is_dir {
        subfolders(entries.drop_last()).push(entries.last().path@)
    } else {
        subfolders(entries.drop_last())
    }
}

fn relative_candidate(dir: &str, base_dir: &str) -> (r: Option<String>)
    ensures
        match root_candidate(dir@, base_dir@) {
            Some(c) => r matches Some(x) && x@ == c,
            None => r.is_none(),
        },
{
    let rel = match strip_path_prefix(dir, base_dir) {
        None => {
            return None;
        },
        Some(rel) => rel,
    };
    let n = rel.unicode_len();
    if n == 0 {
        return Some(".".to_string());
    }
    let mut out = String::new();
    let mut i: usize = 0;
    while i < n
        invariant
            n == rel@.len(),
            i <= n,
            out@ == forward_slashes(rel@.subrange(0, i as int)),
        decreases n - i,
    {
        let c = rel.get_char(i);
        let d = if c == '\\' { '/' } else { c };
        push_char(&mut out, d);
        i = i + 1;
        assert(forward_slashes(rel@.subrange(0, i as int)) =~= forward_slashes(
            rel@.subrange(0, (i - 1) as int),
        ).push(d));
    }
    assert(rel@.subrange(0, n as int) =~= rel@);
    Some(out)
}

/// Decides what scanning the folder `dir` (scan base `base_dir`) gives from
/// its entries: a mod root when any entry marks one, recorded relative to
/// the base; else its subfolders to scan next, in order.
pub fn scan_dir_decision(dir: &str, base_dir: &str, entries: &Vec<ScanEntry>) -> (r: ScanDecision)
    ensures
        (exists|i: int| 0 <= i < entries@.len() && marks_mod_root(#[trigger] entries@[i])) ==> (r matches ScanDecision::ModRoot(c)
            && match root_candidate(dir@, base_dir@) {
            Some(x) => c matches Some(y) && y@ == x,
            None => c.is_none(),
        }),
        !(exists|i: int| 0 <= i < entries@.len() && marks_mod_root(#[trigger] entries@[i])) ==> (r matches ScanDecision::Descend(v)
            && views(v@) == subfolders(entries@)),
{
    let mut is_mod_root = false;
    let mut subdirs: Vec<String> = Vec::new();
    let mut i: usize = 0;
    while i < entries.len()
        invariant
            i <= entries@.len(),
            is_mod_root == (exists|k: int| 0 <= k < i && marks_mod_root(#[trigger] entries@[k])),
            views(subdirs@) == subfolders(entries@.take(i as int)),
        decreases entries@.len() - i,
    {
        let e = &entries[i];
        let marks = if e.is_dir {
            match file_name(e.path.as_str()) {
                Some(name) => game_structure_folder(name.as_str()),
                None => false,
            }
        } else {
            match extension(e.path.as_str()) {
                Some(ext) => game_file_extension(ext.as_str()),
                None => false,
            }
        };
        assert(marks == marks_mod_root(entries@[i as int]));
        if marks {
            is_mod_root = true;
        }
        let ghost before = subdirs@;
        if e.is_dir {
            subdirs.push(owned(e.path.as_str()));
        }
        proof {
            let t = entries@.take(i as int + 1);
            assert(t.drop_last() =~= entries@.take(i as int));
            if e.is_dir {
                assert(views(subdirs@) =~= views(before).push(e.path@));
            } else {
                assert(subdirs@ =~= before);
            }
        }
        i = i + 1;
    }
    assert(entries@.take(entries@.len() as int) =~= entries@);
    if is_mod_root {
        ScanDecision::ModRoot(relative_candidate(dir, base_dir))
    } else {
        ScanDecision::Descend(subdirs)
    }
}

/// The items to install from `source_root`: every top-level folder (listed by
/// `list_dir_names`) when the selection is empty or `.`; else the selection.
pub fn select_items_to_process<D>(source_root: &str, selected_folders: &[String], list_dir_names: D) -> (r:
    Result<Vec<String>, String>)
    where
        D: Fn(&str) -> Result<Vec<String>, String>,
    requires
        call_requires(list_dir_names, (source_root,)),
    ensures
        (selected_folders@.len() == 0 || (selected_folders@.len() == 1 && selected_folders@[0]@ == "."@))
            ==> call_ensures(list_dir_names, (source_root,), r),
        !(selected_folders@.len() == 0 || (selected_folders@.len() == 1 && selected_folders@[0]@ == "."@))
            ==> (r matches Ok(v) && views(v@) == views(selected_folders@)),
{
    if is_scan_all_selection(selected_folders) {
        let r = list_dir_names(source_root);
        assert(call_ensures(list_dir_names, (source_root,), r));
        r
    } else {
        Ok(copy_strings(selected_folders))
    }
}

/// The longest folder path that is read, in characters; the system refuses
/// longer paths.
pub const MAX_SCAN_PATH_CHARS: usize = 4096;

/// Some entry marks its folder as a mod root.
pub open spec fn any_marks_mod_root(entries: Seq<ScanEntry>) -> bool {
    exists|i: int| 0 <= i < entries.len() && marks_mod_root(#[trigger] entries[i])
}

/// `out` is what scanning `dir` (scan base `base_dir`) finds, reading folders
/// with `read_dir` (`None` when a folder cannot be read): nothing for an
/// unreadable folder or a path longer than `MAX_SCAN_PATH_CHARS`; the
/// folder's own candidate when it is a mod root; else what scanning each
/// subfolder finds, in order. A subfolder path that does not extend `dir`
/// (which a real folder listing never gives) finds nothing.
pub open spec fn scanned<R: Fn(&str) -> Option<Vec<ScanEntry>>>(
    dir: Seq<char>,
    base_dir: Seq<char>,
    read_dir: R,
    out: Seq<Seq<char>>,
) -> bool
    decreases MAX_SCAN_PATH_CHARS + 1 - dir.len(),
{
    if dir.len() > MAX_SCAN_PATH_CHARS {
        out.len() == 0
    } else {
        exists|p: &str, listed: Option<Vec<ScanEntry>>|
            #![trigger call_ensures(read_dir, (p,), listed)]
            p@ == dir && call_ensures(read_dir, (p,), listed) && match listed {
                None => out.len() == 0,
                Some(entries) => if any_marks_mod_root(entries@) {
                    out == match root_candidate(dir, base_dir) {
                        Some(c) => seq![c],
                        None => Seq::<Seq<char>>::empty(),
                    }
                } else {
                    let subs = subfolders(entries@);
                    exists|parts: Seq<Seq<Seq<char>>>|
                        #![trigger parts.flatten_alt()]
                        parts.len() == subs.len() && out == parts.flatten_alt() && forall|i: int|
                            0 <= i < subs.len() ==> if dir.len() < subs[i].len() <= MAX_SCAN_PATH_CHARS {
                                scanned(subs[i], base_dir, read_dir, #[trigger] parts[i])
                            } else {
                                parts[i].len() == 0
                            }
                },
            }
    }
}

/// The mod roots under `dir`, relative to `base_dir` (see `scanned`): a
/// folder holding a game data folder or game data file is a root and is not
/// searched further.
pub fn scan_for_installable_mods<R>(dir: &str, base_dir: &str, read_dir: &R) -> (r: Vec<String>)
    where
        R: Fn(&str) -> Option<Vec<ScanEntry>>,
    requires
        forall|p: &str| call_requires(*read_dir, (p,)),
    ensures
        scanned(dir@, base_dir@, *read_dir, views(r@)),
    decreases MAX_SCAN_PATH_CHARS + 1 - dir@.len(),
{
    let mut candidates: Vec<String> = Vec::new();
    let n = dir.unicode_len();
    if n > MAX_SCAN_PATH_CHARS {
        assert(views(candidates@) =~= Seq::<Seq<char>>::empty());
        return candidates;
    }
    let listed = read_dir(dir);
    assert(call_ensures(*read_dir, (dir,), listed));
    let entries = match listed {
        None => {
            assert(views(candidates@) =~= Seq::<Seq<char>>::empty());
            return candidates;
        },
        Some(e) => e,
    };
    match scan_dir_decision(dir, base_dir, &entries) {
        ScanDecision::ModRoot(c) => {
            match c {
                Some(x) => {
                    candidates.push(x);
                },
                None => {},
            }
            assert(any_marks_mod_root(entries@));
            proof {
                match root_candidate(dir@, base_dir@) {
                    Some(x) => assert(views(candidates@) =~= seq![x]),
                    None => assert(views(candidates@) =~= Seq::<Seq<char>>::empty()),
                }
            }
            candidates
        },
        ScanDecision::Descend(subdirs) => {
            let ghost subs = subfolders(entries@);
            let ghost mut parts: Seq<Seq<Seq<char>>> = Seq::empty();
            let mut i: usize = 0;
            while i < subdirs.len()
                invariant
                    i <= subdirs@.len(),
                    n == dir@.len(),
                    n <= MAX_SCAN_PATH_CHARS,
                    views(subdirs@) == subs,
                    forall|p: &str| call_requires(*read_dir, (p,)),
                    parts.len() == i,
                    views(candidates@) == parts.flatten_alt(),
                    forall|k: int|
                        0 <= k < i ==> if dir@.len() < subs[k].len() <= MAX_SCAN_PATH_CHARS {
                            scanned(subs[k], base_dir@, *read_dir, #[trigger] parts[k])
                        } else {
                            parts[k].len() == 0
                        },
                decreases subdirs@.len() - i,
            {
                let sub = subdirs[i].as_str();
                assert(sub@ == subs[i as int]);
                let m = sub.unicode_len();
                let found: Vec<String> = if m > n && m <= MAX_SCAN_PATH_CHARS {
                    scan_for_installable_mods(sub, base_dir, read_dir)
                } else {
                    Vec::new()
                };
                proof {
                    if !(m > n && m <= MAX_SCAN_PATH_CHARS) {
                        assert(views(found@) =~= Seq::<Seq<char>>::empty());
                    }
                }
                let ghost before = candidates@;
                let mut j: usize = 0;
                while j < found.len()
                    invariant
                        j <= found@.len(),
                        views(candidates@) == views(before) + views(found@.take(j as int)),
                    decreases found@.len() - j,
                {
                    let ghost prev = candidates@;
                    candidates.push(owned(found[j].as_str()));
                    assert(views(candidates@) =~= views(prev).push(found@[j as int]@));
                    assert(views(found@.take(j + 1)) =~= views(found@.take(j as int)).push(found@[j as int]@));
                    j = j + 1;
                    assert(views(candidates@) =~= views(before) + views(found@.take(j as int)));
                }
                assert(found@.take(j as int) =~= found@);
                proof {
                    let old_parts = parts;
                    parts = parts.push(views(found@));
                    assert(parts.drop_last() =~= old_parts);
                    assert(views(candidates@) == parts.flatten_alt());
                }
                i = i + 1;
            }
            assert(!any_marks_mod_root(entries@));
            assert(views(candidates@) == parts.flatten_alt());
            candidates
        },
    }
}

} // verus!
