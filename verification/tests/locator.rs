use aether::{
    build_launch_command, candidate_executables, select_executable, u16_decimal, BrowserCandidate,
    BrowserError, BrowserManager, HostOs, LaunchDirective,
};

#[test]
fn windows_candidates_need_program_files() {
    let err = candidate_executables(&HostOs::Windows, None).unwrap_err();
    match err {
        BrowserError::Configuration(m) => assert_eq!(m, "ProgramFiles not found"),
        other => panic!("unexpected error: {:?}", other),
    }
}

#[test]
fn windows_candidates_are_chrome_then_edge() {
    let pf = "C:\\Program Files".to_string();
    let v = candidate_executables(&HostOs::Windows, Some(&pf)).unwrap();
    assert_eq!(v.len(), 2);
    assert_eq!(
        v[0],
        BrowserCandidate::InstallPath(
            "C:\\Program Files\\Google\\Chrome\\Application\\chrome.exe".to_string()
        )
    );
    assert_eq!(
        v[1],
        BrowserCandidate::InstallPath(
            "C:\\Program Files\\Microsoft\\Edge\\Application\\msedge.exe".to_string()
        )
    );
}

#[test]
fn macos_candidates_are_chrome_then_edge() {
    let v = candidate_executables(&HostOs::MacOs, None).unwrap();
    assert_eq!(v.len(), 2);
    assert_eq!(
        v[0],
        BrowserCandidate::InstallPath(
            "/Applications/Google Chrome.app/Contents/MacOS/Google Chrome".to_string()
        )
    );
    assert_eq!(
        v[1],
        BrowserCandidate::InstallPath(
            "/Applications/Microsoft Edge.app/Contents/MacOS/Microsoft Edge".to_string()
        )
    );
}

#[test]
fn linux_candidates_in_order() {
    let v = candidate_executables(&HostOs::Linux, None).unwrap();
    let names: Vec<&str> = v
        .iter()
        .map(|c| match c {
            BrowserCandidate::CommandName(n) => n.as_str(),
            BrowserCandidate::InstallPath(p) => p.as_str(),
        })
        .collect();
    assert_eq!(names, vec!["google-chrome", "chromium", "chromium-browser", "microsoft-edge"]);
}

#[test]
fn select_takes_first_hit() {
    let probes = vec![None, Some("/opt/chrome".to_string()), Some("/opt/edge".to_string())];
    assert_eq!(select_executable(&probes).unwrap(), "/opt/chrome");
}

#[test]
fn select_with_no_hit_is_configuration_error() {
    let probes: Vec<Option<String>> = vec![None, None, None, None];
    let err = select_executable(&probes).unwrap_err();
    match err {
        BrowserError::Configuration(m) => {
            assert_eq!(m, "Could not find Chrome, Edge, or Chromium. Please install one of them.")
        },
        other => panic!("unexpected error: {:?}", other),
    }
}

#[test]
fn launch_command_carries_fixed_flags() {
    let cmd = build_launch_command("/opt/chrome".to_string(), 9222, "/tmp/profile");
    assert_eq!(cmd.program, "/opt/chrome");
    assert_eq!(
        cmd.args,
        vec![
            "--remote-debugging-port=9222".to_string(),
            "--no-first-run".to_string(),
            "--no-default-browser-check".to_string(),
            "--disable-default-apps".to_string(),
            "--disable-popup-blocking".to_string(),
            "--user-data-dir=/tmp/profile".to_string(),
        ]
    );
}

#[test]
fn decimal_rendering_is_exact() {
    assert_eq!(u16_decimal(0), "0");
    assert_eq!(u16_decimal(7), "7");
    assert_eq!(u16_decimal(9222), "9222");
    assert_eq!(u16_decimal(65535), "65535");
}

#[test]
fn launch_is_idempotent_once_recorded() {
    let mut m = BrowserManager::new();
    assert!(!m.has_running_process());
    m.record_launched_process();
    assert!(m.has_running_process());
    let d = m.plan_launch(&HostOs::Linux, None, "/tmp/profile").unwrap();
    assert!(matches!(d, LaunchDirective::AlreadyRunning));
}

#[test]
fn failed_launch_stores_nothing_and_retries_fresh() {
    let m = BrowserManager::new();
    // A Windows host whose environment names no program-files directory has
    // no usable install: the launch fails as a configuration error and no
    // process is recorded.
    let err = m.plan_launch(&HostOs::Windows, None, "/tmp/profile").unwrap_err();
    match err {
        BrowserError::Configuration(msg) => assert_eq!(msg, "ProgramFiles not found"),
        other => panic!("unexpected error: {:?}", other),
    }
    assert!(!m.has_running_process());
    // The next attempt starts over rather than reporting idempotent success.
    let again = m.plan_launch(&HostOs::Windows, None, "/tmp/profile").unwrap_err();
    assert!(matches!(again, BrowserError::Configuration(_)));
}

#[test]
fn plan_launch_stores_no_process_by_itself() {
    let m = BrowserManager::new();
    let _ = m.plan_launch(&HostOs::Linux, None, "/tmp/profile");
    // Whatever the host offered, only an explicit record holds a process.
    assert!(!m.has_running_process());
}
