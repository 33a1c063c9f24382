use clash_verge::dirs::{
    app_home_dir, app_icons_dir, app_latest_log, app_logs_dir, app_profiles_dir, app_resources_dir,
    clash_latest_log, clash_path, encryption_key_path, ensure_mihomo_safe_dir, find_target_icons,
    generate_encryption_key, get_encryption_key, ipc_path, local_backup_dir, path_to_str, portable_data_candidate,
    portable_data_root, portable_roaming_dir, profiles_path, service_log_dir, service_path,
    sidecar_log_dir, verge_path, DirsEnv, DirsError, SafeDirChoice, ENCRYPTION_KEY_LEN,
};
use clash_verge::path::{AppPath, Platform};

fn unix_env(portable: bool) -> DirsEnv {
    DirsEnv {
        platform: Platform::OtherUnix,
        portable,
        exe_dir: Ok(AppPath::from_root("/opt/clash")),
        data_dir: Some(AppPath::from_root("/home/u/.local/share")),
        resource_dir: Some(AppPath::from_root("/usr/lib/clash")),
        local_app_data: None,
        roaming_app_data: None,
        webview_override: None,
        temp_dir: AppPath::from_root("/tmp"),
    }
}

fn show(r: Result<AppPath, DirsError>, platform: Platform) -> String {
    path_to_str(&r.unwrap(), platform)
}

#[test]
fn portable_home_is_data_app() {
    let env = unix_env(true);
    assert_eq!(show(portable_data_root(&env), Platform::OtherUnix), "/opt/clash/Data");
    assert_eq!(show(portable_roaming_dir(&env), Platform::OtherUnix), "/opt/clash/Data/app");
    assert_eq!(show(app_home_dir(&env), Platform::OtherUnix), "/opt/clash/Data/app");
}

#[test]
fn portable_files_stay_under_data_app() {
    let env = unix_env(true);
    let p = Platform::OtherUnix;
    assert_eq!(show(clash_path(&env), p), "/opt/clash/Data/app/config.yaml");
    assert_eq!(show(verge_path(&env), p), "/opt/clash/Data/app/verge.yaml");
    assert_eq!(show(profiles_path(&env), p), "/opt/clash/Data/app/profiles.yaml");
    assert_eq!(show(app_profiles_dir(&env), p), "/opt/clash/Data/app/profiles");
    assert_eq!(show(app_icons_dir(&env), p), "/opt/clash/Data/app/icons");
    assert_eq!(show(app_logs_dir(&env), p), "/opt/clash/Data/app/logs");
    assert_eq!(show(app_latest_log(&env), p), "/opt/clash/Data/app/logs/latest.log");
    assert_eq!(show(sidecar_log_dir(&env), p), "/opt/clash/Data/app/logs/sidecar");
    assert_eq!(show(service_log_dir(&env), p), "/opt/clash/Data/app/logs/service");
    assert_eq!(show(clash_latest_log(&env), p), "/opt/clash/Data/app/logs/sidecar/sidecar_latest.log");
    assert_eq!(show(local_backup_dir(&env), p), "/opt/clash/Data/app/clash-verge-rev-backup");
    assert_eq!(show(encryption_key_path(&env), p), "/opt/clash/Data/app/.encryption_key");
}

#[test]
fn installed_home_is_under_data_dir() {
    let env = unix_env(false);
    assert_eq!(
        show(app_home_dir(&env), Platform::OtherUnix),
        "/home/u/.local/share/io.github.clash-verge-rev.clash-verge-rev"
    );
    assert_eq!(
        show(clash_path(&env), Platform::OtherUnix),
        "/home/u/.local/share/io.github.clash-verge-rev.clash-verge-rev/config.yaml"
    );
}

#[test]
fn missing_directories_are_errors() {
    let mut env = unix_env(true);
    env.exe_dir = Err(DirsError::ExeDirUnavailable);
    assert!(matches!(portable_data_root(&env), Err(DirsError::ExeDirUnavailable)));
    assert!(matches!(app_home_dir(&env), Err(DirsError::ExeDirUnavailable)));
    assert!(matches!(clash_path(&env), Err(DirsError::ExeDirUnavailable)));
    let mut env = unix_env(false);
    env.data_dir = None;
    assert!(matches!(app_home_dir(&env), Err(DirsError::HomeDirUnavailable)));
    assert!(matches!(app_logs_dir(&env), Err(DirsError::HomeDirUnavailable)));
    env.resource_dir = None;
    assert!(matches!(app_resources_dir(&env), Err(DirsError::ResourceDirUnavailable)));
}

#[test]
fn error_messages() {
    assert_eq!(DirsError::ExeDirUnavailable.message(), "failed to get exe directory");
    assert_eq!(DirsError::HomeDirUnavailable.message(), "Failed to get the app homedirectory");
    assert_eq!(DirsError::ResourceDirUnavailable.message(), "Failed to get the resource directory");
    assert_eq!(DirsError::LocalAppDataUnset.message(), "LOCALAPPDATA not set");
    assert_eq!(DirsError::IpcPathUnavailable.message(), "Failed to determine ipc path");
    assert_eq!(DirsError::Unsupported.message(), "no such path on this platform");
    let lookup = DirsError::ExeLookupFailed("No such file or directory (os error 2)".to_string());
    assert_eq!(lookup.message(), "No such file or directory (os error 2)");
}

#[test]
fn exe_lookup_failure_is_reported_as_it_came() {
    let mut env = unix_env(true);
    let failure = DirsError::ExeLookupFailed("Permission denied (os error 13)".to_string());
    env.exe_dir = Err(failure.clone());
    assert_eq!(portable_data_root(&env).err(), Some(failure.clone()));
    assert_eq!(portable_roaming_dir(&env).err(), Some(failure.clone()));
    assert_eq!(app_home_dir(&env).err(), Some(failure));
}

#[test]
fn service_path_per_platform() {
    let mut env = unix_env(false);
    assert!(matches!(service_path(&env), Err(DirsError::Unsupported)));
    env.platform = Platform::MacOs;
    assert_eq!(show(service_path(&env), Platform::MacOs), "/usr/lib/clash/resources/clash-verge-service");
    env.platform = Platform::Windows;
    env.resource_dir = Some(AppPath::from_root("C:\\Program Files\\Clash"));
    assert_eq!(
        show(service_path(&env), Platform::Windows),
        "C:\\Program Files\\Clash\\resources\\clash-verge-service.exe"
    );
    env.resource_dir = None;
    assert!(matches!(service_path(&env), Err(DirsError::ResourceDirUnavailable)));
}

#[test]
fn windows_paths_use_backslashes() {
    let mut env = unix_env(false);
    env.platform = Platform::Windows;
    env.data_dir = Some(AppPath::from_root("C:\\Users\\u\\AppData\\Roaming"));
    assert_eq!(
        show(verge_path(&env), Platform::Windows),
        "C:\\Users\\u\\AppData\\Roaming\\io.github.clash-verge-rev.clash-verge-rev\\verge.yaml"
    );
    env.data_dir = Some(AppPath::from_root("C:\\"));
    assert_eq!(
        show(app_home_dir(&env), Platform::Windows),
        "C:\\io.github.clash-verge-rev.clash-verge-rev"
    );
}

#[test]
fn root_with_trailing_separator_gets_no_second_one() {
    let p = AppPath::from_root("/").join("tmp");
    assert_eq!(path_to_str(&p, Platform::OtherUnix), "/tmp");
}

#[test]
fn portable_candidate_is_data_beside_exe() {
    let p = portable_data_candidate(&AppPath::from_root("/opt/clash"));
    assert_eq!(path_to_str(&p, Platform::OtherUnix), "/opt/clash/Data");
}

#[test]
fn safe_dir_prefers_tmp_then_home_config() {
    let home = Some(AppPath::from_root("/home/u"));
    match ensure_mihomo_safe_dir(true, &home) {
        SafeDirChoice::UseExisting(p) => assert_eq!(path_to_str(&p, Platform::OtherUnix), "/tmp"),
        _ => panic!("expected /tmp"),
    }
    match ensure_mihomo_safe_dir(false, &home) {
        SafeDirChoice::EnsureHomeConfig(p) => assert_eq!(path_to_str(&p, Platform::OtherUnix), "/home/u/.config"),
        _ => panic!("expected ~/.config"),
    }
    assert!(matches!(ensure_mihomo_safe_dir(false, &None), SafeDirChoice::Unavailable));
}

#[test]
fn ipc_path_choices() {
    let env = unix_env(false);
    let safe = Some(AppPath::from_root("/tmp"));
    assert_eq!(show(ipc_path(&env, &safe), Platform::OtherUnix), "/tmp/verge/verge-mihomo.sock");
    assert_eq!(
        show(ipc_path(&env, &None), Platform::OtherUnix),
        "/home/u/.local/share/io.github.clash-verge-rev.clash-verge-rev/verge/verge-mihomo.sock"
    );
    let mut env = unix_env(false);
    env.data_dir = None;
    assert!(matches!(ipc_path(&env, &None), Err(DirsError::IpcPathUnavailable)));
    env.platform = Platform::Windows;
    assert_eq!(show(ipc_path(&env, &None), Platform::Windows), "\\\\.\\pipe\\verge-mihomo");
}

#[test]
fn icons_first_match_in_listing_order() {
    let dir = AppPath::from_root("/h").join("icons");
    let names: Vec<String> = vec![
        "readme.txt".to_string(),
        ".png".to_string(),
        "clash.svg".to_string(),
        "clash-sys.PNG".to_string(),
        "clash.ico".to_string(),
    ];
    assert_eq!(
        find_target_icons(&dir, "clash", &names, Platform::OtherUnix),
        Some("/h/icons/clash-sys.PNG".to_string())
    );
    assert_eq!(
        find_target_icons(&dir, "clash.", &names, Platform::OtherUnix),
        None
    );
    assert_eq!(find_target_icons(&dir, "other", &names, Platform::OtherUnix), None);
    let names: Vec<String> = vec!["tray.tar.ico".to_string(), "tray".to_string(), "tray.".to_string()];
    assert_eq!(
        find_target_icons(&dir, "tray", &names, Platform::OtherUnix),
        Some("/h/icons/tray.tar.ico".to_string())
    );
    let names: Vec<String> = vec!["tray".to_string(), "tray.".to_string(), ".tray.ico".to_string()];
    assert_eq!(
        find_target_icons(&dir, ".tray", &names, Platform::OtherUnix),
        Some("/h/icons/.tray.ico".to_string())
    );
}

#[test]
fn new_encryption_key_has_32_bytes() {
    let key = generate_encryption_key().unwrap();
    assert_eq!(key.len(), ENCRYPTION_KEY_LEN);
    assert_eq!(key.len(), 32);
    let other = generate_encryption_key().unwrap();
    assert_ne!(key, other);
}

#[test]
fn stored_key_is_kept_and_missing_key_is_made() {
    let stored = vec![7u8; 32];
    let k = get_encryption_key(Some(stored.clone())).unwrap();
    assert_eq!(k.key, stored);
    assert!(!k.is_new);
    let again = get_encryption_key(Some(k.key.clone())).unwrap();
    assert_eq!(again.key, stored);
    let fresh = get_encryption_key(None).unwrap();
    assert!(fresh.is_new);
    assert_eq!(fresh.key.len(), 32);
    let reread = get_encryption_key(Some(fresh.key.clone())).unwrap();
    assert_eq!(reread.key, fresh.key);
    assert!(!reread.is_new);
}
