//! Settling a staged install that conflicts with an installed mod: replace
//! the old folder by the new one, or drop the staged copy. The file system is
//! reached through the functions handed in.
use vstd::prelude::*;
use crate::paths::{join_path, path_join};
use crate::text::concat2;

verus! {

/// What moving `src` to `dest` gives: a rename that succeeds ends it;
/// otherwise `dest` is created when missing, `src` copied into it and then
/// removed. The first failing step ends it with its message.
pub open spec fn move_outcome<N, E, C, P, D>(
    src: &str,
    dest: &str,
    rename_dir: N,
    path_exists: E,
    create_dir_all: C,
    copy_dir: P,
    remove_dir_all: D,
    r: Result<(), String>,
) -> bool
    where
        N: FnOnce(&str, &str) -> Result<(), String>,
        E: FnOnce(&str) -> bool,
        C: FnOnce(&str) -> Result<(), String>,
        P: FnOnce(&str, &str) -> Result<(), String>,
        D: FnOnce(&str) -> Result<(), String>,
{
    exists|renamed: Result<(), String>|
        #![trigger call_ensures(rename_dir, (src, dest), renamed)]
        call_ensures(rename_dir, (src, dest), renamed) && match renamed {
            Ok(()) => r is Ok,
            Err(_) => exists|ex: bool|
                #![trigger call_ensures(path_exists, (dest,), ex)]
                call_ensures(path_exists, (dest,), ex) && {
                    let after_create = |created: Result<(), String>|
                        match created {
                            Err(e) => (r matches Err(m) && m@ == "Failed to create dest dir: "@ + e@),
                            Ok(()) => exists|copied: Result<(), String>|
                                #![trigger call_ensures(copy_dir, (src, dest), copied)]
                                call_ensures(copy_dir, (src, dest), copied) && match copied {
                                    Err(e) => r == Err::<(), String>(e),
                                    Ok(()) => exists|removed: Result<(), String>|
                                        #![trigger call_ensures(remove_dir_all, (src,), removed)]
                                        call_ensures(remove_dir_all, (src,), removed) && match removed {
                                            Ok(()) => r is Ok,
                                            Err(e) => (r matches Err(m) && m@
                                                == "Failed to remove source after copy: "@ + e@),
                                        },
                                },
                        };
                    if ex {
                        after_create(Ok(()))
                    } else {
                        exists|created: Result<(), String>|
                            #![trigger call_ensures(create_dir_all, (dest,), created)]
                            call_ensures(create_dir_all, (dest,), created) && after_create(created)
                    }
                },
        }
}

/// Moves the folder `src` to `dest`: a rename when it works, else a copy
/// into `dest` (created when missing) and a removal of `src` (see
/// `move_outcome`).
pub fn move_dir_safely_with<N, E, C, P, D>(
    src: &str,
    dest: &str,
    rename_dir: N,
    path_exists: E,
    create_dir_all: C,
    copy_dir: P,
    remove_dir_all: D,
) -> (r: Result<(), String>)
    where
        N: FnOnce(&str, &str) -> Result<(), String>,
        E: FnOnce(&str) -> bool,
        C: FnOnce(&str) -> Result<(), String>,
        P: FnOnce(&str, &str) -> Result<(), String>,
        D: FnOnce(&str) -> Result<(), String>,
    requires
        call_requires(rename_dir, (src, dest)),
        call_requires(path_exists, (dest,)),
        call_requires(create_dir_all, (dest,)),
        call_requires(copy_dir, (src, dest)),
        call_requires(remove_dir_all, (src,)),
    ensures
        move_outcome(src, dest, rename_dir, path_exists, create_dir_all, copy_dir, remove_dir_all, r),
{
    let renamed = rename_dir(src, dest);
    assert(call_ensures(rename_dir, (src, dest), renamed));
    if renamed.is_ok() {
        return Ok(());
    }
    let ex = path_exists(dest);
    assert(call_ensures(path_exists, (dest,), ex));
    if !ex {
        let created = create_dir_all(dest);
        assert(call_ensures(create_dir_all, (dest,), created));
        if let Err(e) = created {
            return Err(concat2("Failed to create dest dir: ", e.as_str()));
        }
    }
    let copied = copy_dir(src, dest);
    assert(call_ensures(copy_dir, (src, dest), copied));
    if let Err(e) = copied {
        return Err(e);
    }
    let removed = remove_dir_all(src);
    assert(call_ensures(remove_dir_all, (src,), removed));
    match removed {
        Ok(()) => Ok(()),
        Err(e) => Err(concat2("Failed to remove source after copy: ", e.as_str())),
    }
}

/// What settling the conflict gives. With `replace`, the old folder
/// `<mods>/<old>` is removed when it exists and the staged folder moved to
/// `<mods>/<new>`; without it, the staged folder is removed. The first
/// failing step ends it with its message; otherwise the staged folder's
/// parent is tidied and the result is `Ok`.
pub open spec fn resolve_in_paths_outcome<E, D, M, K>(
    mods_path: Seq<char>,
    new_mod_name: Seq<char>,
    old_mod_folder_name: Seq<char>,
    temp_mod_path: &str,
    replace: bool,
    path_exists: E,
    remove_dir_all: D,
    move_dir: M,
    cleanup_parent: K,
    r: Result<(), String>,
) -> bool
    where
        E: FnOnce(&str) -> bool,
        D: FnOnce(&str) -> Result<(), String>,
        M: FnOnce(&str, &str) -> Result<(), String>,
        K: FnOnce(&str),
{
    let old_path = path_join(mods_path, old_mod_folder_name);
    let new_path = path_join(mods_path, new_mod_name);
    let finished = (r is Ok && call_ensures(cleanup_parent, (temp_mod_path,), ()));
    if replace {
        let after_removal = |removed: Result<(), String>|
            match removed {
                Err(e) => (r matches Err(m) && m@ == "Failed to remove old mod: "@ + e@),
                Ok(()) => exists|q: &str, moved: Result<(), String>|
                    #![trigger call_ensures(move_dir, (temp_mod_path, q), moved)]
                    q@ == new_path && call_ensures(move_dir, (temp_mod_path, q), moved) && match moved {
                        Err(e) => r == Err::<(), String>(e),
                        Ok(()) => finished,
                    },
            };
        exists|p: &str, ex: bool|
            #![trigger call_ensures(path_exists, (p,), ex)]
            p@ == old_path && call_ensures(path_exists, (p,), ex) && if ex {
                exists|removed: Result<(), String>|
                    #![trigger call_ensures(remove_dir_all, (p,), removed)]
                    call_ensures(remove_dir_all, (p,), removed) && after_removal(removed)
            } else {
                after_removal(Ok(()))
            }
    } else {
        exists|removed: Result<(), String>|
            #![trigger call_ensures(remove_dir_all, (temp_mod_path,), removed)]
            call_ensures(remove_dir_all, (temp_mod_path,), removed) && match removed {
                Err(e) => (r matches Err(m) && m@ == "Failed to cleanup temp mod folder: "@ + e@),
                Ok(()) => finished,
            }
    }
}

/// Settles a staged conflict inside the mods folder (see
/// `resolve_in_paths_outcome`).
pub fn resolve_conflict_in_paths<E, D, M, K>(
    mods_path: &str,
    new_mod_name: &str,
    old_mod_folder_name: &str,
    temp_mod_path: &str,
    replace: bool,
    path_exists: E,
    remove_dir_all: D,
    move_dir: M,
    cleanup_parent: K,
) -> (r: Result<(), String>)
    where
        E: FnOnce(&str) -> bool,
        D: FnOnce(&str) -> Result<(), String>,
        M: FnOnce(&str, &str) -> Result<(), String>,
        K: FnOnce(&str),
    requires
        forall|p: &str| call_requires(path_exists, (p,)),
        forall|p: &str| call_requires(remove_dir_all, (p,)),
        forall|q: &str| call_requires(move_dir, (temp_mod_path, q)),
        call_requires(cleanup_parent, (temp_mod_path,)),
    ensures
        resolve_in_paths_outcome(
            mods_path@,
            new_mod_name@,
            old_mod_folder_name@,
            temp_mod_path,
            replace,
            path_exists,
            remove_dir_all,
            move_dir,
            cleanup_parent,
            r,
        ),
{
    let old_mod_path = join_path(mods_path, old_mod_folder_name);
    let final_new_mod_path = join_path(mods_path, new_mod_name);
    if replace {
        let p = old_mod_path.as_str();
        let ex = path_exists(p);
        assert(call_ensures(path_exists, (p,), ex));
        if ex {
            let removed = remove_dir_all(p);
            assert(call_ensures(remove_dir_all, (p,), removed));
            if let Err(e) = removed {
                return Err(concat2("Failed to remove old mod: ", e.as_str()));
            }
        }
        let q = final_new_mod_path.as_str();
        let moved = move_dir(temp_mod_path, q);
        assert(call_ensures(move_dir, (temp_mod_path, q), moved));
        if let Err(e) = moved {
            return Err(e);
        }
    } else {
        let removed = remove_dir_all(temp_mod_path);
        assert(call_ensures(remove_dir_all, (temp_mod_path,), removed));
        if let Err(e) = removed {
            return Err(concat2("Failed to cleanup temp mod folder: ", e.as_str()));
        }
    }
    cleanup_parent(temp_mod_path);
    assert(call_ensures(cleanup_parent, (temp_mod_path,), ()));
    Ok(())
}

} // verus!
