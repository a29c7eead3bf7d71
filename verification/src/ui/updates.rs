//! The update banner: install now, wait, or open the release page.
use vstd::prelude::*;

use crate::text::{join2, join3};
use crate::updater::UpdateEvent;

verus! {

/// What the update banner shows.
#[derive(Debug)]
pub struct Banner {
    pub message: String,
    /// The update can be installed now.
    pub ready: bool,
    /// The address of the release page, empty for none.
    pub page: String,
}

/// What the banner says of an update.
pub open spec fn banner_text(event: UpdateEvent) -> Seq<char> {
    match event {
        UpdateEvent::Downloading { version } => "OpenClips "@ + version@
            + " is being downloaded in the background."@,
        UpdateEvent::Ready(pending) => "OpenClips "@ + pending.version@
            + " is ready. It installs on the next start, or now if you prefer."@,
        UpdateEvent::Available { version, .. } => "OpenClips "@ + version@
            + " is available. This portable copy does not update itself; download it from the release page."@,
    }
}

/// The page that the banner opens.
pub open spec fn banner_page(event: UpdateEvent) -> Seq<char> {
    match event {
        UpdateEvent::Downloading { .. } => ""@,
        UpdateEvent::Ready(pending) => pending.release_url@,
        UpdateEvent::Available { url, .. } => url@,
    }
}

/// The banner of an update.
pub fn apply_update_event(event: &UpdateEvent) -> (r: Banner)
    ensures
        r.message@ == banner_text(*event),
        r.ready == (*event is Ready),
        r.page@ == banner_page(*event),
{
    match event {
        UpdateEvent::Downloading { version } => Banner {
            message: join3(
                "OpenClips ",
                version.as_str(),
                " is being downloaded in the background.",
            ),
            ready: false,
            page: "".to_owned(),
        },
        UpdateEvent::Ready(pending) => Banner {
            message: join3(
                "OpenClips ",
                pending.version.as_str(),
                " is ready. It installs on the next start, or now if you prefer.",
            ),
            ready: true,
            page: pending.release_url.clone(),
        },
        UpdateEvent::Available { version, url } => Banner {
            message: join3(
                "OpenClips ",
                version.as_str(),
                " is available. This portable copy does not update itself; download it from the release page.",
            ),
            ready: false,
            page: url.clone(),
        },
    }
}

/// Takes over that installing an update failed.
pub fn install_failed(banner: &mut Banner, reason: &str)
    ensures
        final(banner).message@ == "Update failed: "@ + reason@,
        !final(banner).ready,
        final(banner).page == old(banner).page,
{
    banner.message = join2("Update failed: ", reason);
    banner.ready = false;
}

/// Takes over that the user does not want to see the banner.
pub fn dismiss(shown: &mut Option<UpdateEvent>, banner: &mut Banner)
    ensures
        *final(shown) is None,
        final(banner).message@ == ""@,
        final(banner).ready == old(banner).ready,
        final(banner).page == old(banner).page,
{
    *shown = None;
    banner.message = "".to_owned();
}

} // verus!
