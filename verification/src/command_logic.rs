//! Small pure pieces of the mod commands: the `mod_info.json` path, error
//! rewording, download percentages and the download result record.
use vstd::prelude::*;
use crate::command_ops::mods_root_spec;
use crate::models::DownloadResult;
use crate::paths::{join_path, path_join};
use crate::text::{concat3, contains_spec, contains_str, decimal, owned, u64_to_string};

verus! {

pub open spec fn mod_info_path_spec(game_path: Seq<char>, mod_folder_name: Seq<char>) -> Seq<char> {
    path_join(path_join(mods_root_spec(game_path), mod_folder_name), "mod_info.json"@)
}

/// `<game>/GAMEDATA/MODS/<folder>/mod_info.json`.
pub fn mod_info_path_for(game_path: &str, mod_folder_name: &str) -> (r: String)
    ensures
        r@ == mod_info_path_spec(game_path@, mod_folder_name@),
{
    let gamedata = join_path(game_path, "GAMEDATA");
    let mods = join_path(gamedata.as_str(), "MODS");
    let folder = join_path(mods.as_str(), mod_folder_name);
    join_path(folder.as_str(), "mod_info.json")
}

pub open spec fn mod_info_missing_message(mod_folder_name: Seq<char>) -> Seq<char> {
    "mod_info.json not found for mod '"@ + mod_folder_name + "'."@
}

/// The id update error as the user sees it.
pub open spec fn mapped_update_error(mod_folder_name: Seq<char>, err: Seq<char>) -> Seq<char> {
    if contains_spec(err, "not found for path"@) {
        mod_info_missing_message(mod_folder_name)
    } else {
        err
    }
}

/// Rewords a "not found for path" error as a missing `mod_info.json` of the
/// named mod; any other error passes through unchanged.
pub fn map_update_mod_id_error(mod_folder_name: &str, err: String) -> (r: String)
    ensures
        contains_spec(err@, "not found for path"@) ==> r@ == mod_info_missing_message(
            mod_folder_name@,
        ),
        !contains_spec(err@, "not found for path"@) ==> r == err,
{
    if contains_str(err.as_str(), "not found for path") {
        concat3("mod_info.json not found for mod '", mod_folder_name, "'.")
    } else {
        err
    }
}

/// The whole percentage downloaded, or `None` while the total size is unknown
/// (zero).
pub fn download_progress(downloaded: u64, total_size: u64) -> (r: Option<u64>)
    requires
        total_size != 0 ==> downloaded * 100 <= u64::MAX,
    ensures
        total_size == 0 ==> r.is_none(),
        total_size != 0 ==> r == Some(((downloaded * 100) / (total_size as int)) as u64),
{
    if total_size == 0 {
        None
    } else {
        Some((downloaded * 100) / total_size)
    }
}

pub open spec fn download_step_spec(pct: u64) -> Seq<char> {
    "Downloading: "@ + decimal(pct as nat) + "%"@
}

/// `Downloading: <pct>%`.
pub fn download_step_label(pct: u64) -> (r: String)
    ensures
        r@ == download_step_spec(pct),
{
    let digits = u64_to_string(pct);
    concat3("Downloading: ", digits.as_str(), "%")
}

/// The creation time when known, else the modification time, else `now`.
pub fn preferred_file_time<T, E>(created: Result<T, E>, modified: Result<T, E>, now: T) -> (r: T)
    ensures
        r == match created {
            Ok(t) => t,
            Err(_) => match modified {
                Ok(t) => t,
                Err(_) => now,
            },
        },
{
    match created {
        Ok(t) => t,
        Err(_) => match modified {
            Ok(t) => t,
            Err(_) => now,
        },
    }
}

/// The record of a finished download.
pub fn build_download_result(path: &str, size: u64, created_at: u64) -> (r: DownloadResult)
    ensures
        r.path@ == path@,
        r.size == size,
        r.created_at == created_at,
{
    DownloadResult { path: owned(path), size, created_at }
}

#[verifier::external_type_specification]
#[verifier::external_body]
pub struct ExSystemTime(std::time::SystemTime);

/// What `time.duration_since(UNIX_EPOCH)` gives for `time`: the time
/// since the Unix epoch, or `None` (the error) for a time before it.
pub uninterp spec fn since_unix_epoch(time: std::time::SystemTime) -> Option<std::time::Duration>;

/// What `Duration::as_secs` gives: the whole seconds of `d`.
pub uninterp spec fn duration_secs(d: std::time::Duration) -> u64;

/// What `Duration::as_millis` gives: the whole milliseconds of `d`.
pub uninterp spec fn duration_millis(d: std::time::Duration) -> u128;

/// Calls `SystemTime::duration_since(UNIX_EPOCH)`: the time since the Unix
/// epoch, or `None` for an earlier time. The result depends on `time` alone
/// and is given the name `since_unix_epoch`.
#[verifier::external_body]
fn duration_since_unix_epoch(time: std::time::SystemTime) -> (r: Option<std::time::Duration>)
    ensures
        r == since_unix_epoch(time),
{
    match time.duration_since(std::time::UNIX_EPOCH) {
        Ok(d) => Some(d),
        Err(_) => None,
    }
}

/// Calls `Duration::as_secs`; the result is named `duration_secs`.
#[verifier::external_body]
fn whole_secs(d: &std::time::Duration) -> (r: u64)
    ensures
        r == duration_secs(*d),
{
    d.as_secs()
}

/// Calls `Duration::as_millis`; the result is named `duration_millis`.
#[verifier::external_body]
fn whole_millis(d: &std::time::Duration) -> (r: u128)
    ensures
        r == duration_millis(*d),
{
    d.as_millis()
}

/// Reads the system clock with `SystemTime::now()`. The result depends on
/// the clock, so nothing is claimed of it.
#[verifier::external_body]
pub(crate) fn system_time_now() -> std::time::SystemTime {
    std::time::SystemTime::now()
}

/// The whole seconds from the Unix epoch to `time`, or `None` for a time
/// before it.
pub open spec fn secs_since_epoch_of(time: std::time::SystemTime) -> Option<u64> {
    match since_unix_epoch(time) {
        Some(d) => Some(duration_secs(d)),
        None => None,
    }
}

/// The whole milliseconds from the Unix epoch to `time`, or `None` for a
/// time before it.
pub open spec fn millis_since_epoch_of(time: std::time::SystemTime) -> Option<u128> {
    match since_unix_epoch(time) {
        Some(d) => Some(duration_millis(d)),
        None => None,
    }
}

/// The milliseconds since the epoch as an `i64` timestamp; 0 for a time
/// before the epoch or one too far ahead for an `i64`.
pub fn timestamp_millis_or_zero(since_epoch: Option<u128>) -> (r: i64)
    ensures
        r == match since_epoch {
            Some(ms) => if ms <= i64::MAX {
                ms as i64
            } else {
                0
            },
            None => 0,
        },
{
    match since_epoch {
        Some(ms) => if ms <= 9_223_372_036_854_775_807u128 {
            ms as i64
        } else {
            0
        },
        None => 0,
    }
}

/// Milliseconds from the Unix epoch to `time` as an `i64` timestamp; 0 for
/// a time before the epoch or one too far ahead for an `i64`.
pub fn unix_millis_or_zero(time: std::time::SystemTime) -> (r: i64)
    ensures
        r == match millis_since_epoch_of(time) {
            Some(ms) => if ms <= i64::MAX {
                ms as i64
            } else {
                0
            },
            None => 0,
        },
{
    let ms = match duration_since_unix_epoch(time) {
        Some(d) => Some(whole_millis(&d)),
        None => None,
    };
    timestamp_millis_or_zero(ms)
}

/// The seconds since the epoch, or 0 for a time before it.
pub fn secs_or_zero(since_epoch: Option<u64>) -> (r: u64)
    ensures
        r == match since_epoch {
            Some(s) => s,
            None => 0,
        },
{
    match since_epoch {
        Some(s) => s,
        None => 0,
    }
}

/// Whole seconds from the Unix epoch to `time`, 0 for a time before it:
/// `secs_or_zero` of what `SystemTime::duration_since` gives.
pub fn unix_secs_or_zero(time: std::time::SystemTime) -> (r: u64)
    ensures
        r == match secs_since_epoch_of(time) {
            Some(s) => s,
            None => 0,
        },
{
    let since = match duration_since_unix_epoch(time) {
        Some(d) => Some(whole_secs(&d)),
        None => None,
    };
    secs_or_zero(since)
}

} // verus!
