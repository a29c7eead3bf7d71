use openclips::ui::updates::{apply_update_event, dismiss, install_failed};
use openclips::updater::{
    accept_download, check_release, checksum_for, expected_hash, hash_matches, install_now,
    installer_of, is_newer, latest_release, pending_at_start, plan_fetch, updates_dir, CheckStep, Download, FileDigest, PendingStep,
    PendingUpdate, UpdateEvent, MAX_INSTALLER_BYTES,
};
use sha2::{Digest, Sha256};

const ABC: &str = "ba7816bf8f01cfea414140de5dae2223b00361a396177a9cb410ff61f20015ad";

fn reply() -> &'static str {
    "{\"tag_name\":\"v1.2.0\",\"html_url\":\"https://x/rel\",\"assets\":[\
     {\"name\":\"OpenClips-setup.exe\",\"browser_download_url\":\"https://x/setup\"},\
     {\"name\":\"no url\"},7,\
     {\"name\":\"sha256sums.TXT\",\"browser_download_url\":\"https://x/sums\"}]}"
}

fn pending(sha256: &str) -> PendingUpdate {
    PendingUpdate {
        version: "1.2.0".to_owned(),
        installer: "/u/setup.exe".to_owned(),
        sha256: sha256.to_owned(),
        release_url: "https://x/rel".to_owned(),
    }
}

#[test]
fn downloads_are_hashed_as_they_come() {
    let mut download = Download::new();
    assert_eq!(download.take(b"a"), Ok(()));
    assert_eq!(download.take(b"bc"), Ok(()));
    assert_eq!(download.finish(), ABC);
    let mut digest = FileDigest::new();
    let bytes = vec![7u8; 100_000];
    digest.feed(&bytes[..40_000]);
    digest.feed(&bytes[40_000..]);
    assert_eq!(digest.finish(), format!("{:x}", Sha256::digest(&bytes)));
}

#[test]
fn an_installer_that_is_too_large_is_refused() {
    let mut download = Download::new();
    download.total = MAX_INSTALLER_BYTES - 1;
    assert_eq!(
        download.take(b"ab"),
        Err("installer is unexpectedly large".to_owned())
    );
    assert_eq!(download.take(b"a"), Ok(()));
}

#[test]
fn hashes_are_compared_in_any_case() {
    assert!(hash_matches(&Some(ABC.to_uppercase()), ABC));
    assert!(!hash_matches(&Some("00".to_owned()), ABC));
    assert!(!hash_matches(&None, ABC));
}

#[test]
fn only_an_intact_newer_installer_runs() {
    let good = Some(ABC.to_owned());
    let p = pending(ABC);
    assert_eq!(pending_at_start(&p, true, true, &good), PendingStep::Launch);
    assert_eq!(pending_at_start(&p, false, true, &good), PendingStep::Forget);
    assert_eq!(pending_at_start(&p, true, false, &good), PendingStep::Forget);
    assert_eq!(pending_at_start(&p, true, true, &None), PendingStep::Forget);
    assert_eq!(install_now(&p, &good), Ok(()));
    assert_eq!(
        install_now(&p, &Some("0".to_owned())),
        Err("the downloaded installer is corrupt, it will be fetched again".to_owned())
    );
    assert_eq!(updates_dir("/data"), "/data/updates");
}

#[test]
fn a_release_is_read_from_the_reply() {
    let release = latest_release(reply()).expect("release");
    assert_eq!(release.tag, "v1.2.0");
    assert_eq!(release.url, "https://x/rel");
    assert_eq!(release.assets.len(), 2);
    assert_eq!(release.assets[1].url, "https://x/sums");
    let bare = latest_release("{\"tag_name\":\"v1\"}").expect("release");
    assert_eq!(bare.url, "https://github.com");
    assert!(bare.assets.is_empty());
    match latest_release("{\"name\":\"v1\"}") {
        Err(text) => assert_eq!(text, "release has no tag"),
        Ok(_) => panic!("unexpected release"),
    }
    assert!(latest_release("nonsense").is_err());
    assert!(latest_release("[]").is_err());
}

#[test]
fn a_check_reports_fetches_or_does_nothing() {
    let release = latest_release(reply()).expect("release");
    assert!(matches!(
        check_release(&release, "1.2.0", false, true, None, &None),
        CheckStep::UpToDate
    ));
    match check_release(&release, "1.2.0", true, false, None, &None) {
        CheckStep::Report(UpdateEvent::Available { version, url }) => {
            assert_eq!(version, "1.2.0");
            assert_eq!(url, "https://x/rel");
        }
        other => panic!("unexpected {other:?}"),
    }
    assert!(matches!(
        check_release(&release, "1.2.0", true, true, Some(pending(ABC)), &Some(ABC.to_uppercase())),
        CheckStep::Report(UpdateEvent::Ready(_))
    ));
    assert!(matches!(
        check_release(&release, "1.2.0", true, true, Some(pending(ABC)), &None),
        CheckStep::Fetch
    ));
    let corrupt = Some("00".to_owned());
    assert!(matches!(
        check_release(&release, "1.2.0", true, true, Some(pending(ABC)), &corrupt),
        CheckStep::Fetch
    ));
    assert!(matches!(
        check_release(&release, "1.3.0", true, true, Some(pending(ABC)), &Some(ABC.to_owned())),
        CheckStep::Fetch
    ));
}

#[test]
fn an_installer_needs_an_address_and_a_checksum() {
    let release = latest_release(reply()).expect("release");
    let plan = plan_fetch(&release, Some("OpenClips-setup.exe".to_owned())).expect("plan");
    assert_eq!(plan.url, "https://x/setup");
    assert_eq!(plan.sums.as_deref(), Some("https://x/sums"));
    match plan_fetch(&release, None) {
        Err(text) => assert_eq!(text, "release v1.2.0 has no installer"),
        Ok(_) => panic!("unexpected plan"),
    }
    match plan_fetch(&release, Some("other.exe".to_owned())) {
        Err(text) => assert_eq!(text, "installer asset has no url"),
        Ok(_) => panic!("unexpected plan"),
    }
    assert_eq!(
        expected_hash(&release, "a.exe", None),
        Err("release v1.2.0 has no SHA256SUMS.txt entry for a.exe".to_owned())
    );
    assert_eq!(
        expected_hash(&release, "a.exe", Some(ABC.to_owned())),
        Ok(ABC.to_owned())
    );
}

#[test]
fn a_download_is_kept_only_with_its_checksum() {
    let release = latest_release(reply()).expect("release");
    let mut good = Download::new();
    let _ = good.take(b"abc");
    let kept = accept_download(&release, "1.2.0", "a.exe", "/u/a.exe".to_owned(), good, ABC.to_owned())
        .expect("kept");
    assert_eq!(kept.sha256, ABC);
    assert_eq!(kept.release_url, "https://x/rel");
    let bad = accept_download(
        &release,
        "1.2.0",
        "a.exe",
        "/u/a.exe".to_owned(),
        Download::new(),
        ABC.to_owned(),
    );
    match bad {
        Err(text) => assert_eq!(text, "checksum mismatch for a.exe"),
        Ok(_) => panic!("unexpected update"),
    }
}

#[test]
fn the_banner_tells_what_to_do() {
    let mut ready = apply_update_event(&UpdateEvent::Ready(pending(ABC)));
    assert!(ready.ready);
    assert_eq!(ready.page, "https://x/rel");
    assert_eq!(
        ready.message,
        "OpenClips 1.2.0 is ready. It installs on the next start, or now if you prefer."
    );
    install_failed(&mut ready, "no");
    assert!(!ready.ready);
    assert_eq!(ready.message, "Update failed: no");
    let loading = UpdateEvent::Downloading {
        version: "2".to_owned(),
    };
    let mut banner = apply_update_event(&loading);
    assert_eq!(
        banner.message,
        "OpenClips 2 is being downloaded in the background."
    );
    let mut shown = Some(loading);
    dismiss(&mut shown, &mut banner);
    assert!(shown.is_none());
    assert_eq!(banner.message, "");
    let link = apply_update_event(&UpdateEvent::Available {
        version: "3".to_owned(),
        url: "u".to_owned(),
    });
    assert!(link.message.starts_with("OpenClips 3 is available."));
    assert_eq!(link.page, "u");
}

#[test]
fn versions_are_compared_by_number() {
    assert_eq!(is_newer("v1.10.0", "1.9.9"), Some(true));
    assert_eq!(is_newer("1.9.9", "1.9.9"), Some(false));
    assert_eq!(is_newer("1.9", "1.9.0"), Some(false));
    assert_eq!(is_newer("2", "1.9.0"), Some(true));
    assert_eq!(is_newer("1.x", "1.9.0"), None);
}

#[test]
fn checksums_are_found_by_name() {
    let sums = "aa  other.exe\r\nbb *setup.exe\ncc  setup.exe\n";
    assert_eq!(checksum_for(sums, "setup.exe").as_deref(), Some("bb"));
    assert_eq!(checksum_for(sums, "other.exe").as_deref(), Some("aa"));
    assert_eq!(checksum_for(sums, "none.exe"), None);
    let release = latest_release(reply()).expect("release");
    assert_eq!(installer_of(&release).as_deref(), Some("OpenClips-setup.exe"));
}
