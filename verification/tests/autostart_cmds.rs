use wakfarm::autostart::{
    disable_autostart, enable_autostart, is_autostart_enabled, HostEnv, Platform, RunList,
};

fn windows_release() -> HostEnv {
    HostEnv { platform: Platform::Windows, dev_build: false }
}

#[test]
fn enable_twice_leaves_one_entry() {
    let env = windows_release();
    let mut run = RunList { entry: None };
    enable_autostart(&env, &mut run, "C:\\apps\\wakfarm.exe".to_string()).unwrap();
    enable_autostart(&env, &mut run, "C:\\apps\\wakfarm.exe".to_string()).unwrap();
    assert_eq!(run.entry, Some("C:\\apps\\wakfarm.exe".to_string()));
}

#[test]
fn enable_keeps_the_path_written_last() {
    let env = windows_release();
    let mut run = RunList { entry: None };
    enable_autostart(&env, &mut run, "C:\\old.exe".to_string()).unwrap();
    enable_autostart(&env, &mut run, "C:\\new.exe".to_string()).unwrap();
    assert_eq!(run.entry, Some("C:\\new.exe".to_string()));
}

#[test]
fn disable_when_not_enabled_fails_without_side_effects() {
    let env = windows_release();
    let mut run = RunList { entry: None };
    let err = disable_autostart(&env, &mut run).unwrap_err();
    assert_eq!(err, "Error deleting registry value: value not found");
    assert_eq!(run.entry, None);
}

#[test]
fn dev_build_refuses_enable_and_reports_disabled() {
    let env = HostEnv { platform: Platform::Windows, dev_build: true };
    let mut run = RunList { entry: Some("C:\\apps\\wakfarm.exe".to_string()) };
    let err = enable_autostart(&env, &mut run, "C:\\other.exe".to_string()).unwrap_err();
    assert_eq!(
        err,
        "Autostart is disabled in dev builds. Use a release build or the installed app."
    );
    assert_eq!(is_autostart_enabled(&env, &run), Ok(false));
    assert_eq!(run.entry, Some("C:\\apps\\wakfarm.exe".to_string()));
}

#[test]
fn unsupported_platform_gates_all_three_operations() {
    let env = HostEnv { platform: Platform::Other, dev_build: false };
    let mut run = RunList { entry: None };
    let msg = "Autostart is only supported on Windows".to_string();
    assert_eq!(enable_autostart(&env, &mut run, "/usr/bin/wakfarm".to_string()), Err(msg.clone()));
    assert_eq!(disable_autostart(&env, &mut run), Err(msg.clone()));
    assert_eq!(is_autostart_enabled(&env, &run), Err(msg));
    assert_eq!(run.entry, None);
}

#[test]
fn enable_query_disable_cycle() {
    let env = windows_release();
    let mut run = RunList { entry: None };
    assert_eq!(is_autostart_enabled(&env, &run), Ok(false));
    enable_autostart(&env, &mut run, "C:\\apps\\wakfarm.exe".to_string()).unwrap();
    assert_eq!(is_autostart_enabled(&env, &run), Ok(true));
    disable_autostart(&env, &mut run).unwrap();
    assert_eq!(is_autostart_enabled(&env, &run), Ok(false));
    assert_eq!(run.entry, None);
}
