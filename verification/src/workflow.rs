//! The concrete fetch → install → pair workflow, and the single-phase
//! install workflow, as decisions over plain values. The surrounding
//! application performs each phase's outside work (the fetch, the device
//! query, the installation, the pairing-record placement) and hands its
//! outcome to the step functions here, which drive the operation tracker:
//! any intermediate failure marks the operation failed and halts the rest.

use vstd::prelude::*;

use crate::device::DeviceError;
use crate::device::DeviceInfo;
use crate::operation::advanced_model;
use crate::operation::completed_model;
use crate::operation::failed_model;
use crate::operation::has_running;
use crate::operation::in_phase;
use crate::operation::started_model;
use crate::operation::Operation;

verus! {

/// Name and location of the companion app found installed on the device.
#[derive(Debug)]
pub struct AppInfo {
    pub bundle_id: String,
    pub path: String,
}

/// The mathematical shape of an [`AppInfo`].
#[verifier::ext_equal]
pub struct AppInfoModel {
    pub bundle_id: Seq<char>,
    pub path: Seq<char>,
}

impl View for AppInfo {
    type V = AppInfoModel;

    open spec fn view(&self) -> AppInfoModel {
        AppInfoModel { bundle_id: self.bundle_id@, path: self.path@ }
    }
}

/// The artifact file name selected by the two independent flags: prerelease
/// channel (nightly) and alternate distribution variant (the container
/// build).
pub open spec fn artifact_filename(nightly: bool, live_container: bool) -> Seq<char> {
    if live_container {
        if nightly {
            "LiveContainerSideStore-Nightly.ipa"@
        } else {
            "LiveContainerSideStore.ipa"@
        }
    } else {
        if nightly {
            "SideStore-Nightly.ipa"@
        } else {
            "SideStore.ipa"@
        }
    }
}

/// The download location selected by the two flags.
pub open spec fn artifact_url(nightly: bool, live_container: bool) -> Seq<char> {
    if live_container {
        if nightly {
            "https://github.com/LiveContainer/LiveContainer/releases/download/nightly/LiveContainer+SideStore.ipa"@
        } else {
            "https://github.com/LiveContainer/LiveContainer/releases/latest/download/LiveContainer+SideStore.ipa"@
        }
    } else {
        if nightly {
            "https://github.com/SideStore/SideStore/releases/download/nightly/SideStore.ipa"@
        } else {
            "https://github.com/SideStore/SideStore/releases/latest/download/SideStore.ipa"@
        }
    }
}

/// Selects the `(filename, url)` pair for the artifact to fetch: one
/// deterministic choice for each of the four flag combinations.
pub fn select_artifact(nightly: bool, live_container: bool) -> (r: (&'static str, &'static str))
    ensures
        r.0@ == artifact_filename(nightly, live_container),
        r.1@ == artifact_url(nightly, live_container),
{
    if live_container {
        if nightly {
            (
                "LiveContainerSideStore-Nightly.ipa",
                "https://github.com/LiveContainer/LiveContainer/releases/download/nightly/LiveContainer+SideStore.ipa",
            )
        } else {
            (
                "LiveContainerSideStore.ipa",
                "https://github.com/LiveContainer/LiveContainer/releases/latest/download/LiveContainer+SideStore.ipa",
            )
        }
    } else {
        if nightly {
            (
                "SideStore-Nightly.ipa",
                "https://github.com/SideStore/SideStore/releases/download/nightly/SideStore.ipa",
            )
        } else {
            (
                "SideStore.ipa",
                "https://github.com/SideStore/SideStore/releases/latest/download/SideStore.ipa",
            )
        }
    }
}

/// The four flag combinations select four pairwise distinct artifacts:
/// different flags give a different file name and a different location.
pub proof fn lemma_artifact_selection_distinct(n1: bool, l1: bool, n2: bool, l2: bool)
    requires
        n1 != n2 || l1 != l2,
    ensures
        artifact_filename(n1, l1) != artifact_filename(n2, l2),
        artifact_url(n1, l1) != artifact_url(n2, l2),
{
    reveal_strlit("LiveContainerSideStore-Nightly.ipa");
    reveal_strlit("LiveContainerSideStore.ipa");
    reveal_strlit("SideStore-Nightly.ipa");
    reveal_strlit("SideStore.ipa");
    reveal_strlit(
        "https://github.com/LiveContainer/LiveContainer/releases/download/nightly/LiveContainer+SideStore.ipa",
    );
    reveal_strlit(
        "https://github.com/LiveContainer/LiveContainer/releases/latest/download/LiveContainer+SideStore.ipa",
    );
    reveal_strlit(
        "https://github.com/SideStore/SideStore/releases/download/nightly/SideStore.ipa",
    );
    reveal_strlit("https://github.com/SideStore/SideStore/releases/latest/download/SideStore.ipa");
    // The four names, and the four locations, have pairwise different lengths.
    assert("SideStore.ipa"@.len() == 13);
    assert("SideStore-Nightly.ipa"@.len() == 21);
    assert("LiveContainerSideStore.ipa"@.len() == 26);
    assert("LiveContainerSideStore-Nightly.ipa"@.len() == 34);
    assert("https://github.com/SideStore/SideStore/releases/latest/download/SideStore.ipa"@.len()
        == 77);
    assert("https://github.com/SideStore/SideStore/releases/download/nightly/SideStore.ipa"@.len()
        == 78);
    assert("https://github.com/LiveContainer/LiveContainer/releases/latest/download/LiveContainer+SideStore.ipa"@.len()
        == 99);
    assert("https://github.com/LiveContainer/LiveContainer/releases/download/nightly/LiveContainer+SideStore.ipa"@.len()
        == 100);
}

/// Success of an artifact fetch as judged from the transport status code:
/// exactly the 2xx range.
pub fn transport_ok(status: u16) -> (r: bool)
    ensures
        r == (200 <= status < 300),
{
    200 <= status && status < 300
}

/// Enters the fetch workflow's first phase.
pub fn start_download(op: &mut Operation) -> (r: Result<(), String>)
    requires
        old(op).wf(),
    ensures
        final(op).wf(),
        old(op)@.status is Running && !has_running(old(op)@) ==> r is Ok && final(op)@
            == started_model(old(op)@, "download"@),
        !(old(op)@.status is Running && !has_running(old(op)@)) ==> r is Err && *final(op) == *old(
            op,
        ),
{
    op.start("download")
}

/// Settles the fetch phase from its outcome: a failed fetch fails the
/// operation there; a successful one moves the workflow on to installation.
pub fn finish_download(op: &mut Operation, fetched: Result<(), String>) -> (r: Result<(), String>)
    requires
        old(op).wf(),
    ensures
        final(op).wf(),
        fetched matches Err(e) ==> {
            &&& r == Err::<(), String>(e)
            &&& (old(op)@.status is Running ==> final(op)@ == failed_model(
                old(op)@,
                "download"@,
                e@,
            ))
            &&& (!(old(op)@.status is Running) ==> *final(op) == *old(op))
        },
        fetched is Ok && in_phase(old(op)@, "download"@) ==> r is Ok && final(op)@
            == advanced_model(old(op)@, "download"@, "install"@),
        fetched is Ok && !in_phase(old(op)@, "download"@) ==> r is Err && *final(op) == *old(op),
{
    match op.fail_if_err("download", fetched) {
        Err(e) => Err(e),
        Ok(_) => op.move_on("download", "install"),
    }
}

/// The installation target: the selected device, or — with none selected —
/// a failure of the install phase saying so.
pub fn resolve_device(op: &mut Operation, selected: Option<DeviceInfo>) -> (r: Result<
    DeviceInfo,
    String,
>)
    requires
        old(op).wf(),
    ensures
        final(op).wf(),
        selected matches Some(d) ==> (r matches Ok(rd) && rd@ == d@ && *final(op) == *old(op)),
        selected is None ==> {
            &&& r matches Err(m) && m@ == "No device selected"@
            &&& (old(op)@.status is Running ==> final(op)@ == failed_model(
                old(op)@,
                "install"@,
                "No device selected"@,
            ))
            &&& (!(old(op)@.status is Running) ==> *final(op) == *old(op))
        },
{
    match selected {
        Some(d) => Ok(d),
        None => {
            let msg = DeviceError::NotSelected.message();
            match op.fail("install", msg) {
                Ok(_) => vstd::pervasive::unreached(),
                Err(m) => Err(m),
            }
        },
    }
}

/// Settles the install phase from its outcome: a failed installation fails
/// the operation there; a successful one moves the workflow on to pairing.
pub fn finish_install(op: &mut Operation, installed: Result<(), String>) -> (r: Result<(), String>)
    requires
        old(op).wf(),
    ensures
        final(op).wf(),
        installed matches Err(e) ==> {
            &&& r == Err::<(), String>(e)
            &&& (old(op)@.status is Running ==> final(op)@ == failed_model(
                old(op)@,
                "install"@,
                e@,
            ))
            &&& (!(old(op)@.status is Running) ==> *final(op) == *old(op))
        },
        installed is Ok && in_phase(old(op)@, "install"@) ==> r is Ok && final(op)@
            == advanced_model(old(op)@, "install"@, "pairing"@),
        installed is Ok && !in_phase(old(op)@, "install"@) ==> r is Err && *final(op) == *old(op),
{
    match op.fail_if_err("install", installed) {
        Err(e) => Err(e),
        Ok(_) => op.move_on("install", "pairing"),
    }
}

/// The companion app to pair with, from the query's outcome: a failed query
/// fails the pairing phase with its own error; a query that found nothing
/// fails it with the not-found message; a located app passes through.
pub fn resolve_companion(op: &mut Operation, located: Result<Option<AppInfo>, String>) -> (r:
    Result<AppInfo, String>)
    requires
        old(op).wf(),
    ensures
        final(op).wf(),
        located matches Ok(Some(info)) ==> (r matches Ok(ri) && ri == info && *final(op)
            == *old(op)),
        located matches Err(e) ==> {
            &&& r == Err::<AppInfo, String>(e)
            &&& (old(op)@.status is Running ==> final(op)@ == failed_model(
                old(op)@,
                "pairing"@,
                e@,
            ))
            &&& (!(old(op)@.status is Running) ==> *final(op) == *old(op))
        },
        located matches Ok(o) && o is None ==> {
            &&& r matches Err(m) && m@ == "Could not find SideStore's bundle ID"@
            &&& (old(op)@.status is Running ==> final(op)@ == failed_model(
                old(op)@,
                "pairing"@,
                "Could not find SideStore's bundle ID"@,
            ))
            &&& (!(old(op)@.status is Running) ==> *final(op) == *old(op))
        },
{
    match op.fail_if_err("pairing", located) {
        Err(e) => Err(e),
        Ok(maybe) => match maybe {
            Some(info) => Ok(info),
            None => {
                let msg = "Could not find SideStore's bundle ID".to_owned();
                match op.fail("pairing", msg) {
                    Ok(_) => vstd::pervasive::unreached(),
                    Err(m) => Err(m),
                }
            },
        },
    }
}

/// Settles the pairing phase from its outcome and, on success, completes
/// the whole operation.
pub fn finish_pairing(op: &mut Operation, paired: Result<(), String>) -> (r: Result<(), String>)
    requires
        old(op).wf(),
    ensures
        final(op).wf(),
        paired matches Err(e) ==> {
            &&& r == Err::<(), String>(e)
            &&& (old(op)@.status is Running ==> final(op)@ == failed_model(
                old(op)@,
                "pairing"@,
                e@,
            ))
            &&& (!(old(op)@.status is Running) ==> *final(op) == *old(op))
        },
        paired is Ok && in_phase(old(op)@, "pairing"@) ==> r is Ok && final(op)@ == completed_model(
            old(op)@,
            "pairing"@,
        ),
        paired is Ok && !in_phase(old(op)@, "pairing"@) ==> r is Err && *final(op) == *old(op),
{
    match op.fail_if_err("pairing", paired) {
        Err(e) => Err(e),
        Ok(_) => op.complete("pairing"),
    }
}

/// Enters the single-phase install workflow's only phase.
pub fn start_install(op: &mut Operation) -> (r: Result<(), String>)
    requires
        old(op).wf(),
    ensures
        final(op).wf(),
        old(op)@.status is Running && !has_running(old(op)@) ==> r is Ok && final(op)@
            == started_model(old(op)@, "install"@),
        !(old(op)@.status is Running && !has_running(old(op)@)) ==> r is Err && *final(op) == *old(
            op,
        ),
{
    op.start("install")
}

/// Settles the single install phase from its outcome and, on success,
/// completes the whole operation.
pub fn complete_install(op: &mut Operation, installed: Result<(), String>) -> (r: Result<
    (),
    String,
>)
    requires
        old(op).wf(),
    ensures
        final(op).wf(),
        installed matches Err(e) ==> {
            &&& r == Err::<(), String>(e)
            &&& (old(op)@.status is Running ==> final(op)@ == failed_model(
                old(op)@,
                "install"@,
                e@,
            ))
            &&& (!(old(op)@.status is Running) ==> *final(op) == *old(op))
        },
        installed is Ok && in_phase(old(op)@, "install"@) ==> r is Ok && final(op)@
            == completed_model(old(op)@, "install"@),
        installed is Ok && !in_phase(old(op)@, "install"@) ==> r is Err && *final(op) == *old(op),
{
    match op.fail_if_err("install", installed) {
        Err(e) => Err(e),
        Ok(_) => op.complete("install"),
    }
}

} // verus!
