use openclips::bootstrap::{candidates, find_runtime, missing_runtime};
use openclips::crash::{crash_note, dump_dir, module_file, report_base, to_hex, CrashRecord, Module};
use openclips::i18n::{load_catalog, Catalogs, Translator};
use openclips::instance::{claim, socket_path};
use openclips::paths::{file_name_of, join_path, same_path, within};
use openclips::platform::Platform;
use openclips::shell::{disk_space, file_uri, opens_url, percent_encode};
use openclips::startup::{apply, is_enabled, removed, shows_window, startup_warning, RunValue};
use openclips::toast::{finish_setup, place, work_area_bottom_right, Point, SetupStep};

#[test]
fn bundled_runtime_next_to_exe_wins() {
    let bundled = join_path(join_path("/app", "gstreamer").as_str(), "bin");
    let files = vec![
        join_path("/opt/gst/bin", "gstreamer-1.0-0.dll"),
        join_path(bundled.as_str(), "gstreamer-1.0-0.dll"),
    ];
    let found = find_runtime(Some("/app"), Some("/opt/gst"), &files).expect("found");
    assert_eq!(found.bin, bundled);
    assert_eq!(found.root, "/app/gstreamer");
}

#[test]
fn flat_layout_is_accepted() {
    let files = vec![join_path("/app", "gstreamer-1.0-0.dll")];
    let found = find_runtime(Some("/app"), None, &files).expect("found");
    assert_eq!(found.bin, "/app");
    assert_eq!(found.root, "/app");
}

#[test]
fn a_missing_runtime_is_explained() {
    assert!(find_runtime(Some("/app"), None, &vec![]).is_none());
    assert_eq!(candidates(None, None).len(), 2);
    assert_eq!(candidates(Some("/a"), Some("/b"))[2], "/b");
    assert!(missing_runtime().contains("GSTREAMER_1_0_ROOT_MSVC_X86_64"));
}

#[test]
fn a_second_launch_is_turned_away() {
    let path = socket_path(Some("/run/user/1"), true, "/tmp");
    assert_eq!(path, "/run/user/1/openclips.sock");
    assert_eq!(socket_path(Some("/gone"), false, "/tmp"), "/tmp/openclips.sock");
    assert_eq!(socket_path(None, true, "/tmp"), "/tmp/openclips.sock");
    assert!(claim(path.clone(), true).is_none());
    let mut guard = claim(path, false).expect("claimed");
    assert!(!guard.take_show_request());
    guard.received("hello\n");
    assert!(!guard.take_show_request());
    guard.received("show\n");
    assert!(guard.take_show_request());
    assert!(!guard.take_show_request());
}

#[test]
fn crash_notes_tell_the_place() {
    assert_eq!(dump_dir("/data"), "/data/crashes");
    assert_eq!(report_base("/d", 17), "/d/openclips-17");
    assert_eq!(to_hex(0), "0");
    assert_eq!(to_hex(0xdead_beef), "deadbeef");
    assert_eq!(module_file("C:\\gst\\lib/plugin.dll"), "plugin.dll");
    assert_eq!(module_file("plugin.dll"), "plugin.dll");
    assert_eq!(crash_note("1.0", &None), "OpenClips 1.0\n");
    let record = CrashRecord {
        access_violation: true,
        code: 0xc000_0005,
        address: 0x1234,
        module: Some(Module {
            path: "C:\\x\\y.dll".to_owned(),
            base: 0x1000,
        }),
    };
    assert_eq!(
        crash_note("1.0", &Some(record)),
        "OpenClips 1.0\naccess violation code 0xc0000005 at 0x1234\nin y.dll + 0x234\n"
    );
    let plain = CrashRecord {
        access_violation: false,
        code: 5,
        address: 1,
        module: None,
    };
    assert_eq!(
        crash_note("1.0", &Some(plain)),
        "OpenClips 1.0\nexception code 0x00000005 at 0x1\n"
    );
}

#[test]
fn paths_become_addresses() {
    assert_eq!(percent_encode("/a-b_c.d~e/9Z"), "/a-b_c.d~e/9Z");
    assert_eq!(percent_encode("a b,c"), "a%20b%2Cc");
    let odd = "\u{e9}\u{20ac}\u{1f600}%";
    let expected: String = odd.bytes().map(|b| format!("%{b:02X}")).collect();
    assert_eq!(percent_encode(odd), expected);
    assert_eq!(file_uri("/v/x y"), "file:///v/x%20y");
    assert!(opens_url("https://x"));
    assert!(!opens_url("http://x"));
    assert!(!opens_url("file:///etc"));
    let space = disk_space(4096, 10, 100);
    assert_eq!((space.free, space.total), (40_960, 409_600));
}

#[test]
fn file_names_end_a_path() {
    assert_eq!(file_name_of("/v/a.mp4"), "a.mp4");
    assert_eq!(file_name_of("/v/b/"), "b");
    assert_eq!(file_name_of("/"), "");
    assert_eq!(file_name_of(".."), "");
    assert_eq!(join_path("/a/", "b"), "/a/b");
    assert_eq!(join_path("/a", "/b"), "/b");
    assert_eq!(join_path("", "b"), "b");
}

#[test]
fn paths_of_windows_are_understood() {
    assert_eq!(file_name_of("C:\\a\\b.mp4"), "b.mp4");
    assert_eq!(file_name_of("C:/a/b.mp4"), "b.mp4");
    assert_eq!(file_name_of("C:b.mp4"), "b.mp4");
    assert_eq!(file_name_of("C:\\"), "");
    assert_eq!(file_name_of("\\\\nas\\clips\\b.mp4"), "b.mp4");
    assert_eq!(file_name_of("\\\\nas\\clips"), "");
    assert_eq!(file_name_of("/v/a\\b.mp4"), "a\\b.mp4");
    assert_eq!(join_path("C:\\a", "b"), "C:\\a\\b");
    assert_eq!(join_path("C:\\a\\", "b"), "C:\\a\\b");
    assert_eq!(join_path("C:\\a", "D:\\b"), "D:\\b");
    assert_eq!(join_path("C:\\a", "\\b"), "C:\\b");
    assert_eq!(join_path("C:", "b"), "C:b");
    assert_eq!(join_path("\\\\nas\\clips\\x", "\\b"), "\\\\nas\\clips\\b");
    assert!(same_path("C:\\a\\b", "c:/a/b/"));
    assert!(!same_path("C:\\a", "D:\\a"));
    assert!(!same_path("C:\\a", "C:a"));
    assert!(within("C:\\v\\rec\\n.mp4", "C:\\v\\rec"));
    assert!(!within("C:\\v\\recent\\n.mp4", "C:\\v\\rec"));
}

#[test]
fn the_startup_entry_follows_the_setting() {
    match apply(Platform::Windows, true, "C:\\o.exe") {
        Ok(RunValue::Write(command)) => assert_eq!(command, "\"C:\\o.exe\" --minimized"),
        other => panic!("unexpected {other:?}"),
    }
    assert!(matches!(
        apply(Platform::Windows, false, "x"),
        Ok(RunValue::Delete)
    ));
    match apply(Platform::Linux, true, "x") {
        Err(text) => assert_eq!(text, "launch on startup is only implemented on Windows"),
        other => panic!("unexpected {other:?}"),
    }
    assert!(is_enabled(Platform::Windows, true));
    assert!(!is_enabled(Platform::Windows, false));
    assert!(!is_enabled(Platform::Linux, true));
    assert!(removed(0).is_ok() && removed(2).is_ok());
    assert_eq!(removed(5), Err("could not remove the Run value: 5".to_owned()));
    assert!(shows_window(false, false) && shows_window(true, true) && !shows_window(false, true));
}

#[test]
fn the_start_warns_about_what_failed() {
    let t = Translator::new(Catalogs {
        spanish: load_catalog("{}"),
        french: load_catalog("{}"),
        german: load_catalog("{}"),
        russian: load_catalog("{}"),
        portuguese: load_catalog("{}"),
        italian: load_catalog("{}"),
    });
    assert_eq!(startup_warning(&t, None, None), "");
    assert_eq!(
        startup_warning(&t, Some("bad".to_owned()), None),
        "Settings were not applied: bad"
    );
    assert_eq!(
        startup_warning(&t, Some("bad".to_owned()), Some("none".to_owned())),
        "Settings were not applied: bad\nCapture is unavailable: none"
    );
}

#[test]
fn the_notice_goes_to_the_corner() {
    let corner = work_area_bottom_right(None);
    assert_eq!(corner, Point { x: 1920, y: 1080 });
    assert_eq!(
        place(corner, 300, 100, 24),
        Point { x: 1596, y: 956 }
    );
    assert_eq!(
        place(Point { x: 100, y: 100 }, 300, 50, 10),
        Point { x: 0, y: 40 }
    );
    assert_eq!(finish_setup(true, 0), SetupStep::Park);
    assert_eq!(finish_setup(false, 3), SetupStep::Retry { left: 2 });
    assert_eq!(finish_setup(false, 0), SetupStep::GiveUp);
}
