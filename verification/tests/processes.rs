use openclips::linux::processes::{executable_name, program_name, ProcEntry, ProcWatcher};

#[test]
fn native_process_uses_its_file_name() {
    assert_eq!(
        executable_name(b"/usr/bin/Firefox\0--new-window\0").as_deref(),
        Some("firefox")
    );
}

#[test]
fn proton_process_uses_the_windows_executable() {
    let cmdline =
        b"/home/u/.steam/proton/files/bin/wine64-preloader\0Z:\\games\\Half-Life\\HL.exe\0-steam\0";
    assert_eq!(executable_name(cmdline).as_deref(), Some("hl.exe"));
}

#[test]
fn kernel_thread_has_no_name() {
    assert_eq!(executable_name(b""), None);
}

#[test]
fn broken_text_is_replaced_before_the_name_is_taken() {
    assert_eq!(
        executable_name(b"/opt/Caf\xff\0").as_deref(),
        Some("caf\u{fffd}")
    );
    assert_eq!(executable_name(b"\0\0/bin/A\0").as_deref(), Some("a"));
}

#[test]
fn a_windows_path_keeps_its_last_part() {
    let args = vec!["wine".to_owned(), "C:\\Games\\Portal.EXE".to_owned()];
    assert_eq!(program_name(&args).as_deref(), Some("Portal.EXE"));
    let slashes = vec!["/g/a.exe".to_owned()];
    assert_eq!(program_name(&slashes).as_deref(), Some("a.exe"));
    assert_eq!(program_name(&vec![]), None);
    assert_eq!(program_name(&vec!["/".to_owned()]), None);
}

#[test]
fn only_processes_with_a_number_and_a_name_are_listed() {
    let entries = vec![
        ProcEntry {
            name: "42".to_owned(),
            cmdline: Some(b"/usr/bin/Game\0".to_vec()),
            exe: Some("/usr/bin/Game".to_owned()),
        },
        ProcEntry {
            name: "self".to_owned(),
            cmdline: Some(b"/usr/bin/Game\0".to_vec()),
            exe: None,
        },
        ProcEntry {
            name: "7".to_owned(),
            cmdline: Some(Vec::new()),
            exe: None,
        },
        ProcEntry {
            name: "8".to_owned(),
            cmdline: None,
            exe: None,
        },
    ];
    let running = ProcWatcher.running(&entries);
    assert_eq!(running.len(), 1);
    assert_eq!(running[0].pid, 42);
    assert_eq!(running[0].exe, "game");
    assert_eq!(running[0].path.as_deref(), Some("/usr/bin/Game"));
    assert!(!running[0].foreground);
}
