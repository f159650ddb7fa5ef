//! Whether a mods folder holds mods the manager did not install: a mod
//! folder counts as tracked only when its `mod_info.json` names a non-empty
//! `installSource`.
use vstd::prelude::*;
use crate::info_ops::{get_json_string, json_object_fields, json_parse, parse_json_object};
use crate::paths::{join_path, path_join};

verus! {

/// The object's fields name a non-empty `installSource`.
pub open spec fn tracked_fields(fields: Map<Seq<char>, Option<Seq<char>>>) -> bool {
    fields.contains_key("installSource"@) && (fields["installSource"@] matches Some(s) && s.len() > 0)
}

/// `b` is what checking the mod folder `dir` gives: untracked unless its
/// `mod_info.json` exists, reads, parses as a JSON object and names a
/// non-empty `installSource`.
pub open spec fn untracked_result<E, R>(dir: Seq<char>, path_exists: E, read_to_string: R, b: bool) -> bool
    where
        E: Fn(&str) -> bool,
        R: Fn(&str) -> Result<String, String>,
{
    exists|p: &str, ex: bool|
        #![trigger call_ensures(path_exists, (p,), ex)]
        p@ == path_join(dir, "mod_info.json"@) && call_ensures(path_exists, (p,), ex) && if !ex {
            b
        } else {
            exists|got: Result<String, String>|
                #![trigger call_ensures(read_to_string, (p,), got)]
                call_ensures(read_to_string, (p,), got) && match got {
                    Err(_) => b,
                    Ok(content) => match json_parse(content@) {
                        Ok(Some(obj)) => b == !tracked_fields(json_object_fields(obj)),
                        _ => b,
                    },
                }
        }
}

/// Whether the mod folder `mod_dir` is untracked (see `untracked_result`).
pub fn is_untracked_mod_dir<E, R>(mod_dir: &str, path_exists: &E, read_to_string: &R) -> (r: bool)
    where
        E: Fn(&str) -> bool,
        R: Fn(&str) -> Result<String, String>,
    requires
        forall|p: &str| call_requires(*path_exists, (p,)),
        forall|p: &str| call_requires(*read_to_string, (p,)),
    ensures
        untracked_result(mod_dir@, *path_exists, *read_to_string, r),
{
    let info_path = join_path(mod_dir, "mod_info.json");
    let p = info_path.as_str();
    let ex = path_exists(p);
    assert(call_ensures(*path_exists, (p,), ex));
    if !ex {
        return true;
    }
    let got = read_to_string(p);
    assert(call_ensures(*read_to_string, (p,), got));
    let content = match got {
        Err(_) => {
            return true;
        },
        Ok(c) => c,
    };
    match parse_json_object(content.as_str()) {
        Ok(Some(obj)) => match get_json_string(&obj, "installSource") {
            Some(s) => s.unicode_len() == 0,
            None => true,
        },
        _ => true,
    }
}

/// Whether any folder of the mods folder is an untracked mod. `list_subdirs`
/// gives the paths of the folders in `mods_path`, or `None` when it cannot
/// be read, which counts as no untracked mod.
pub fn has_untracked_mods_in_dir<L, E, R>(
    mods_path: &str,
    list_subdirs: L,
    path_exists: E,
    read_to_string: R,
) -> (r: bool)
    where
        L: FnOnce(&str) -> Option<Vec<String>>,
        E: Fn(&str) -> bool,
        R: Fn(&str) -> Result<String, String>,
    requires
        call_requires(list_subdirs, (mods_path,)),
        forall|p: &str| call_requires(path_exists, (p,)),
        forall|p: &str| call_requires(read_to_string, (p,)),
    ensures
        exists|listed: Option<Vec<String>>|
            #![trigger call_ensures(list_subdirs, (mods_path,), listed)]
            call_ensures(list_subdirs, (mods_path,), listed) && match listed {
                None => !r,
                Some(dirs) => {
                    &&& r ==> exists|i: int|
                        0 <= i < dirs.len() && untracked_result(
                            (#[trigger] dirs@[i])@,
                            path_exists,
                            read_to_string,
                            true,
                        )
                    &&& !r ==> forall|i: int|
                        0 <= i < dirs.len() ==> untracked_result(
                            (#[trigger] dirs@[i])@,
                            path_exists,
                            read_to_string,
                            false,
                        )
                },
            },
{
    let listed = list_subdirs(mods_path);
    assert(call_ensures(list_subdirs, (mods_path,), listed));
    let ghost lst = listed;
    let dirs = match listed {
        None => {
            return false;
        },
        Some(d) => d,
    };
    let mut i: usize = 0;
    while i < dirs.len()
        invariant
            i <= dirs.len(),
            lst == Some(dirs),
            call_ensures(list_subdirs, (mods_path,), lst),
            forall|p: &str| call_requires(path_exists, (p,)),
            forall|p: &str| call_requires(read_to_string, (p,)),
            forall|k: int|
                0 <= k < i ==> untracked_result((#[trigger] dirs@[k])@, path_exists, read_to_string, false),
        decreases dirs.len() - i,
    {
        let u = is_untracked_mod_dir(dirs[i].as_str(), &path_exists, &read_to_string);
        if u {
            assert(untracked_result(dirs@[i as int]@, path_exists, read_to_string, true));
            assert(lst->0@ == dirs@);
            return true;
        }
        i = i + 1;
    }
    false
}

} // verus!
