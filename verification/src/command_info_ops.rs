//! The `mod_info.json` commands located under the game path.
use vstd::prelude::*;
use crate::command_logic::{map_update_mod_id_error, mapped_update_error, mod_info_path_for, mod_info_path_spec};
use crate::models::EnsureModInfoInput;

verus! {

/// Sets the id in the mod's `mod_info.json` under the game path; an error
/// is reworded by `map_update_mod_id_error`.
pub fn update_mod_id_in_game_path<F>(
    game_path: &str,
    mod_folder_name: &str,
    new_mod_id: &str,
    update_mod_id_in_json_file: F,
) -> (r: Result<(), String>)
    where
        F: Fn(&str, &str) -> Result<(), String>,
    requires
        forall|a: &str| call_requires(update_mod_id_in_json_file, (a, new_mod_id)),
    ensures
        exists|p: &str, out: Result<(), String>|
            #![trigger call_ensures(update_mod_id_in_json_file, (p, new_mod_id), out)]
            p@ == mod_info_path_spec(game_path@, mod_folder_name@) && call_ensures(
                update_mod_id_in_json_file,
                (p, new_mod_id),
                out,
            ) && match out {
                Ok(()) => r is Ok,
                Err(e) => r matches Err(m) && m@ == mapped_update_error(mod_folder_name@, e@),
            },
{
    let mod_info_path = mod_info_path_for(game_path, mod_folder_name);
    let p = mod_info_path.as_str();
    let out = update_mod_id_in_json_file(p, new_mod_id);
    assert(call_ensures(update_mod_id_in_json_file, (p, new_mod_id), out));
    match out {
        Ok(()) => Ok(()),
        Err(e) => Err(map_update_mod_id_error(mod_folder_name, e)),
    }
}

/// Writes the fields into the mod's `mod_info.json` under the game path and
/// returns what that gives.
pub fn ensure_mod_info_in_game_path<F>(
    game_path: &str,
    mod_folder_name: &str,
    input: &EnsureModInfoInput,
    ensure_mod_info_file: F,
) -> (r: Result<(), String>)
    where
        F: Fn(&str, &EnsureModInfoInput) -> Result<(), String>,
    requires
        forall|a: &str| call_requires(ensure_mod_info_file, (a, input)),
    ensures
        exists|p: &str|
            #![trigger call_ensures(ensure_mod_info_file, (p, input), r)]
            p@ == mod_info_path_spec(game_path@, mod_folder_name@) && call_ensures(
                ensure_mod_info_file,
                (p, input),
                r,
            ),
{
    let mod_info_path = mod_info_path_for(game_path, mod_folder_name);
    let p = mod_info_path.as_str();
    let r = ensure_mod_info_file(p, input);
    assert(call_ensures(ensure_mod_info_file, (p, input), r));
    r
}

} // verus!
