//! The settings file edits behind the commands: load the document, change it
//! with `ordering`, and render or save it.
use vstd::prelude::*;
use crate::models::SettingsData;
use crate::ordering::{
    delete_mod_and_reindex, deleted_mod, rename_mod_in_xml, renamed_mod, reorder_mods,
    reordered_mods,
};

verus! {

/// Loads the settings file, reorders its mods by the names and renders the
/// result as XML. A load or render error is returned as it is.
pub fn reorder_mods_from_settings<L, X>(
    settings_file_path: &str,
    ordered_mod_names: &[String],
    load_settings_file: L,
    to_formatted_xml: X,
) -> (r: Result<String, String>)
    where
        L: Fn(&str) -> Result<SettingsData, String>,
        X: Fn(&SettingsData) -> Result<String, String>,
    requires
        call_requires(load_settings_file, (settings_file_path,)),
        forall|d: &SettingsData| call_requires(to_formatted_xml, (d,)),
    ensures
        exists|loaded: Result<SettingsData, String>|
            #![trigger call_ensures(load_settings_file, (settings_file_path,), loaded)]
            call_ensures(load_settings_file, (settings_file_path,), loaded) && match loaded {
                Err(e) => r == Err::<String, String>(e),
                Ok(root) => exists|after: SettingsData|
                    #![trigger call_ensures(to_formatted_xml, (&after,), r)]
                    reordered_mods(root, ordered_mod_names@, after) && call_ensures(
                        to_formatted_xml,
                        (&after,),
                        r,
                    ),
            },
{
    let loaded = load_settings_file(settings_file_path);
    assert(call_ensures(load_settings_file, (settings_file_path,), loaded));
    let mut root = match loaded {
        Err(e) => {
            return Err(e);
        },
        Ok(root) => root,
    };
    reorder_mods(&mut root, ordered_mod_names);
    let r = to_formatted_xml(&root);
    assert(call_ensures(to_formatted_xml, (&root,), r));
    r
}

/// Loads the settings file, renames the mod in it and renders the result as
/// XML. A load error, the rename's error (mod not found) or a render error is
/// returned as it is.
pub fn rename_mod_in_settings<L, X>(
    settings_file_path: &str,
    old_name: &str,
    new_name: &str,
    load_settings_file: L,
    to_formatted_xml: X,
) -> (r: Result<String, String>)
    where
        L: Fn(&str) -> Result<SettingsData, String>,
        X: Fn(&SettingsData) -> Result<String, String>,
    requires
        call_requires(load_settings_file, (settings_file_path,)),
        forall|d: &SettingsData| call_requires(to_formatted_xml, (d,)),
    ensures
        exists|loaded: Result<SettingsData, String>|
            #![trigger call_ensures(load_settings_file, (settings_file_path,), loaded)]
            call_ensures(load_settings_file, (settings_file_path,), loaded) && match loaded {
                Err(e) => r == Err::<String, String>(e),
                Ok(root) => exists|after: SettingsData, renamed: Result<(), String>|
                    #![trigger renamed_mod(root, old_name@, new_name@, renamed, after)]
                    renamed_mod(root, old_name@, new_name@, renamed, after) && match renamed {
                        Err(e) => r == Err::<String, String>(e),
                        Ok(()) => call_ensures(to_formatted_xml, (&after,), r),
                    },
            },
{
    let loaded = load_settings_file(settings_file_path);
    assert(call_ensures(load_settings_file, (settings_file_path,), loaded));
    let mut root = match loaded {
        Err(e) => {
            return Err(e);
        },
        Ok(root) => root,
    };
    let ghost before = root;
    let renamed = rename_mod_in_xml(&mut root, old_name, new_name);
    assert(renamed_mod(before, old_name@, new_name@, renamed, root));
    match renamed {
        Err(e) => Err(e),
        Ok(()) => {
            let r = to_formatted_xml(&root);
            assert(call_ensures(to_formatted_xml, (&root,), r));
            r
        },
    }
}

/// Loads the settings file, deletes the mod from it and saves it back. A load
/// or save error is returned as it is.
pub fn delete_mod_and_save_settings<L, W>(
    settings_file_path: &str,
    mod_name: &str,
    load_settings_file: L,
    save_settings_file: W,
) -> (r: Result<(), String>)
    where
        L: Fn(&str) -> Result<SettingsData, String>,
        W: Fn(&str, &SettingsData) -> Result<(), String>,
    requires
        call_requires(load_settings_file, (settings_file_path,)),
        forall|d: &SettingsData| call_requires(save_settings_file, (settings_file_path, d)),
    ensures
        exists|loaded: Result<SettingsData, String>|
            #![trigger call_ensures(load_settings_file, (settings_file_path,), loaded)]
            call_ensures(load_settings_file, (settings_file_path,), loaded) && match loaded {
                Err(e) => r == Err::<(), String>(e),
                Ok(root) => exists|after: SettingsData|
                    #![trigger call_ensures(save_settings_file, (settings_file_path, &after), r)]
                    deleted_mod(root, mod_name@, after) && call_ensures(
                        save_settings_file,
                        (settings_file_path, &after),
                        r,
                    ),
            },
{
    let loaded = load_settings_file(settings_file_path);
    assert(call_ensures(load_settings_file, (settings_file_path,), loaded));
    let mut root = match loaded {
        Err(e) => {
            return Err(e);
        },
        Ok(root) => root,
    };
    delete_mod_and_reindex(&mut root, mod_name);
    let r = save_settings_file(settings_file_path, &root);
    assert(call_ensures(save_settings_file, (settings_file_path, &root), r));
    r
}

} // verus!
