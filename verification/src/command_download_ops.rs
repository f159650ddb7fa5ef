//! The status check and progress events of a running download.
use vstd::prelude::*;
use crate::command_logic::{download_progress, download_step_label, download_step_spec};
use crate::models::InstallProgressPayload;
use crate::text::{concat2, owned};

verus! {

/// `p` is the download progress event of `id` at `pct` percent.
pub open spec fn is_download_payload(p: InstallProgressPayload, id: Seq<char>, pct: u64) -> bool {
    &&& p.id@ == id
    &&& p.step@ == download_step_spec(pct)
    &&& p.progress == Some(pct)
}

/// The progress event of download `id` at `pct` percent.
pub fn progress_payload(id: &str, pct: u64) -> (r: InstallProgressPayload)
    ensures
        is_download_payload(r, id@, pct),
{
    InstallProgressPayload { id: owned(id), step: download_step_label(pct), progress: Some(pct) }
}

/// The percentage reported for `downloaded` of `total_size` bytes.
pub open spec fn download_pct(downloaded: u64, total_size: u64) -> u64 {
    ((downloaded * 100) / (total_size as int)) as u64
}

/// Emits one progress event when the download has an id and a known total
/// size; otherwise emits nothing. `emit` is taken as `FnOnce`, so it is
/// called at most once, and only with that event.
pub fn maybe_emit_download_progress_with<E>(
    download_id: Option<&str>,
    downloaded: u64,
    total_size: u64,
    emit: E,
)
    where
        E: FnOnce(InstallProgressPayload),
    requires
        total_size != 0 ==> downloaded * 100 <= u64::MAX,
        forall|p: InstallProgressPayload|
            download_id.is_some() && total_size != 0 && is_download_payload(
                p,
                download_id.unwrap()@,
                download_pct(downloaded, total_size),
            ) ==> call_requires(emit, (p,)),
    ensures
        download_id.is_some() && total_size != 0 ==> exists|p: InstallProgressPayload|
            is_download_payload(p, download_id.unwrap()@, download_pct(downloaded, total_size))
                && call_ensures(emit, (p,), ()),
{
    match (download_id, download_progress(downloaded, total_size)) {
        (Some(id), Some(pct)) => {
            let p = progress_payload(id, pct);
            assert(pct == download_pct(downloaded, total_size));
            assert(is_download_payload(p, download_id.unwrap()@, download_pct(downloaded, total_size)));
            emit(p);
        },
        _ => {},
    }
}

/// A status code in 200..=299 is a success.
pub open spec fn is_success_status(code: u16) -> bool {
    200 <= code <= 299
}

/// The text `reqwest::StatusCode` displays for `code`: the code and its
/// canonical reason.
pub uninterp spec fn http_status_display(code: u16) -> Seq<char>;

/// Displays the status `code` as `reqwest::StatusCode` does; `code` is a
/// valid status code (100..=999), as every `StatusCode` holds.
#[verifier::external_body]
fn status_display(code: u16) -> (r: String)
    requires
        100 <= code <= 999,
    ensures
        r@ == http_status_display(code),
{
    match reqwest::StatusCode::from_u16(code) {
        Ok(status) => status.to_string(),
        Err(e) => e.to_string(),
    }
}

pub open spec fn status_failure_message(code: u16) -> Seq<char> {
    "Download failed with HTTP status: "@ + http_status_display(code)
}

/// Accepts a success status and refuses any other with
/// `Download failed with HTTP status: <status>`.
pub fn ensure_success_status(status: u16) -> (r: Result<(), String>)
    requires
        100 <= status <= 999,
    ensures
        is_success_status(status) ==> r is Ok,
        !is_success_status(status) ==> (r matches Err(m) && m@ == status_failure_message(status)),
{
    if 200 <= status && status <= 299 {
        Ok(())
    } else {
        let shown = status_display(status);
        Err(concat2("Download failed with HTTP status: ", shown.as_str()))
    }
}

} // verus!
