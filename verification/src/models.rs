//! The data the library works on: the mod settings document, render rows,
//! install analysis results and progress events, with the spec functions that
//! read them.
use vstd::prelude::*;
use crate::text::{owned, parse_u32, parse_u32_spec, str_eq};

verus! {

/// One `<Property name=.. value=..>` inside a mod entry.
#[derive(Debug, Clone, PartialEq, Eq)]
pub struct ModProperty {
    pub name: String,
    pub value: Option<String>,
}

/// One mod entry of the `Data` list of the settings document.
#[derive(Debug, Clone, PartialEq, Eq)]
pub struct ModEntry {
    pub entry_name: String,
    pub entry_value: String,
    pub index: String,
    pub properties: Vec<ModProperty>,
}

/// A top-level property of the settings document; the one named `Data`
/// holds the mod entries.
#[derive(Debug, Clone, PartialEq, Eq)]
pub struct TopLevelProperty {
    pub name: String,
    pub value: Option<String>,
    pub mods: Vec<ModEntry>,
}

/// The parsed mod settings document.
#[derive(Debug, Clone, PartialEq, Eq)]
pub struct SettingsData {
    pub template: String,
    pub properties: Vec<TopLevelProperty>,
}

/// What a mod's `mod_info.json` says about it, as read from disk.
#[derive(Debug, Clone, PartialEq, Eq)]
pub struct ModInfo {
    pub mod_id: Option<String>,
    pub file_id: Option<String>,
    pub version: Option<String>,
    pub install_source: Option<String>,
}

/// Local information shown next to a mod in the list.
#[derive(Debug, Clone, PartialEq, Eq)]
pub struct LocalModInfo {
    pub folder_name: String,
    pub mod_id: Option<String>,
    pub file_id: Option<String>,
    pub version: Option<String>,
    pub install_source: Option<String>,
}

/// One row of the mod list.
#[derive(Debug, Clone, PartialEq, Eq)]
pub struct ModRenderData {
    pub folder_name: String,
    pub enabled: bool,
    pub priority: u32,
    pub local_info: Option<LocalModInfo>,
}

/// A mod deployed straight into the mods folder.
#[derive(Debug, Clone, PartialEq, Eq)]
pub struct ModInstallInfo {
    pub name: String,
    pub temp_path: String,
}

/// A mod staged aside because it clashes with an installed one.
#[derive(Debug, Clone, PartialEq, Eq)]
pub struct ModConflictInfo {
    pub new_mod_name: String,
    pub temp_path: String,
    pub old_mod_folder_name: String,
}

/// The outcome of analysing or finalising an archive install.
#[derive(Debug, Clone, PartialEq, Eq)]
pub struct InstallationAnalysis {
    pub successes: Vec<ModInstallInfo>,
    pub conflicts: Vec<ModConflictInfo>,
    pub messy_archive_path: Option<String>,
    pub active_archive_path: Option<String>,
    pub selection_needed: bool,
    pub temp_id: Option<String>,
    pub available_folders: Option<Vec<String>>,
}

/// A progress event of an install or download.
#[derive(Debug, Clone, PartialEq, Eq)]
pub struct InstallProgressPayload {
    pub id: String,
    pub step: String,
    pub progress: Option<u64>,
}

/// The file a finished download produced.
#[derive(Debug, Clone, PartialEq, Eq)]
pub struct DownloadResult {
    pub path: String,
    pub size: u64,
    pub created_at: u64,
}

/// The fields written into a mod's `mod_info.json`.
#[derive(Debug, Clone, PartialEq, Eq)]
pub struct EnsureModInfoInput {
    pub mod_id: String,
    pub file_id: String,
    pub version: String,
    pub install_source: String,
}

// ---------------------------------------------------------------------------
// Spec readers of the settings document
// ---------------------------------------------------------------------------

pub open spec fn opt_view(o: Option<String>) -> Option<Seq<char>> {
    match o {
        Some(s) => Some(s@),
        None => None,
    }
}

/// `i` is the first position of `names` that equals `key`.
pub open spec fn is_first_index(names: Seq<Seq<char>>, key: Seq<char>, i: int) -> bool {
    &&& 0 <= i < names.len()
    &&& names[i] == key
    &&& forall|j: int| 0 <= j < i ==> names[j] != key
}

/// The first position of `names` that equals `key`, or -1 when there is none.
pub open spec fn first_index(names: Seq<Seq<char>>, key: Seq<char>) -> int {
    if exists|i: int| is_first_index(names, key, i) {
        choose|i: int| is_first_index(names, key, i)
    } else {
        -1
    }
}

pub proof fn lemma_first_index_is(names: Seq<Seq<char>>, key: Seq<char>, i: int)
    requires
        is_first_index(names, key, i),
    ensures
        first_index(names, key) == i,
{
    let c = choose|k: int| is_first_index(names, key, k);
    assert(is_first_index(names, key, c));
    if c < i {
        assert(names[c] != key);
    } else if c > i {
        assert(names[i] != key);
    }
}

/// A position found by `first_index` holds the key.
pub proof fn lemma_first_index_spec(names: Seq<Seq<char>>, key: Seq<char>)
    ensures
        first_index(names, key) >= 0 ==> is_first_index(names, key, first_index(names, key)),
        first_index(names, key) >= -1,
        first_index(names, key) < names.len(),
{
}

pub proof fn lemma_first_index_none(names: Seq<Seq<char>>, key: Seq<char>)
    requires
        forall|j: int| 0 <= j < names.len() ==> names[j] != key,
    ensures
        first_index(names, key) == -1,
{
    assert(!exists|i: int| is_first_index(names, key, i));
}

pub open spec fn prop_names(props: Seq<ModProperty>) -> Seq<Seq<char>> {
    Seq::new(props.len(), |i: int| props[i].name@)
}

pub open spec fn top_names(props: Seq<TopLevelProperty>) -> Seq<Seq<char>> {
    Seq::new(props.len(), |i: int| props[i].name@)
}

/// Position of the first property of `e` called `key`, or -1.
pub open spec fn prop_index(e: ModEntry, key: Seq<char>) -> int {
    first_index(prop_names(e.properties@), key)
}

/// The value of the first property of `e` called `key`; `None` when there is
/// no such property or it has no value.
pub open spec fn prop_value(e: ModEntry, key: Seq<char>) -> Option<Seq<char>> {
    let i = prop_index(e, key);
    if i >= 0 {
        opt_view(e.properties@[i].value)
    } else {
        None
    }
}

/// The entry's `Name`.
pub open spec fn entry_name(e: ModEntry) -> Option<Seq<char>> {
    prop_value(e, "Name"@)
}

/// The entry's `Name`, or the empty string when it has none.
pub open spec fn name_or_empty(e: ModEntry) -> Seq<char> {
    match entry_name(e) {
        Some(n) => n,
        None => Seq::empty(),
    }
}

/// The priority an entry sorts by: its `ModPriority` parsed as `u32`, or
/// `u32::MAX` when missing or unparsable.
pub open spec fn priority_key(e: ModEntry) -> u32 {
    match prop_value(e, "ModPriority"@) {
        Some(v) => match parse_u32_spec(v) {
            Some(n) => n,
            None => u32::MAX,
        },
        None => u32::MAX,
    }
}

/// Position of the top-level property called `Data`, or -1.
pub open spec fn data_index(root: SettingsData) -> int {
    first_index(top_names(root.properties@), "Data"@)
}

// ---------------------------------------------------------------------------
// Exec readers
// ---------------------------------------------------------------------------

/// Position of the first property of `props` whose name is `key`.
pub fn find_prop(props: &Vec<ModProperty>, key: &str) -> (r: Option<usize>)
    ensures
        match r {
            Some(i) => i < props.len() && first_index(prop_names(props@), key@) == i,
            None => first_index(prop_names(props@), key@) == -1,
        },
{
    let ghost names = prop_names(props@);
    let mut i: usize = 0;
    while i < props.len()
        invariant
            i <= props.len(),
            names == prop_names(props@),
            forall|j: int| 0 <= j < i ==> names[j] != key@,
        decreases props.len() - i,
    {
        if str_eq(props[i].name.as_str(), key) {
            proof {
                lemma_first_index_is(names, key@, i as int);
            }
            return Some(i);
        }
        i = i + 1;
    }
    proof {
        lemma_first_index_none(names, key@);
    }
    None
}

/// Position of the first top-level property whose name is `key`.
pub fn find_top(props: &Vec<TopLevelProperty>, key: &str) -> (r: Option<usize>)
    ensures
        match r {
            Some(i) => i < props.len() && first_index(top_names(props@), key@) == i,
            None => first_index(top_names(props@), key@) == -1,
        },
{
    let ghost names = top_names(props@);
    let mut i: usize = 0;
    while i < props.len()
        invariant
            i <= props.len(),
            names == top_names(props@),
            forall|j: int| 0 <= j < i ==> names[j] != key@,
        decreases props.len() - i,
    {
        if str_eq(props[i].name.as_str(), key) {
            proof {
                lemma_first_index_is(names, key@, i as int);
            }
            return Some(i);
        }
        i = i + 1;
    }
    proof {
        lemma_first_index_none(names, key@);
    }
    None
}

/// The value of the first property of `e` called `key`.
pub fn entry_prop_value<'a>(e: &'a ModEntry, key: &str) -> (r: Option<&'a String>)
    ensures
        match r {
            Some(s) => prop_value(*e, key@) == Some(s@),
            None => prop_value(*e, key@).is_none(),
        },
{
    match find_prop(&e.properties, key) {
        Some(i) => match &e.properties[i].value {
            Some(v) => Some(v),
            None => None,
        },
        None => None,
    }
}

/// The sort key of an entry: its `ModPriority` parsed as `u32`, else `u32::MAX`.
pub fn entry_priority(e: &ModEntry) -> (r: u32)
    ensures
        r == priority_key(*e),
{
    match entry_prop_value(e, "ModPriority") {
        Some(v) => match parse_u32(v.as_str()) {
            Some(n) => n,
            None => u32::MAX,
        },
        None => u32::MAX,
    }
}

/// The entry's `Name`, or an empty string.
pub fn entry_name_or_empty(e: &ModEntry) -> (r: String)
    ensures
        r@ == name_or_empty(*e),
{
    match entry_prop_value(e, "Name") {
        Some(v) => owned(v.as_str()),
        None => String::new(),
    }
}

} // verus!
