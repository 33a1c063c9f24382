//! Where the application keeps its files.
//!
//! Every function here computes a path from what the platform reported
//! (`DirsEnv`): whether the portable `Data/` directory is in use, the
//! executable's directory, the per-user data and resource directories and a
//! few environment variables. Creating, probing and moving directories is
//! left to the caller; the decisions that depend on such probes take their
//! outcome as an argument.

use vstd::prelude::*;
use crate::path::{AppPath, Platform, render, path_starts_with};

verus! {

/// The application identifier, also the name of its per-user data directory.
pub const APP_ID: &'static str = "io.github.clash-verge-rev.clash-verge-rev";
/// The directory name of earlier releases, migrated from on start-up.
pub const LEGACY_APP_ID: &'static str = "io.github.clash-verge-rev.clash-verge-rev";
/// The name of the local backup directory.
pub const BACKUP_DIR: &'static str = "clash-verge-rev-backup";
/// The core's configuration file.
pub const CLASH_CONFIG: &'static str = "config.yaml";
/// The application's own configuration file.
pub const VERGE_CONFIG: &'static str = "verge.yaml";
/// The profile index file.
pub const PROFILE_YAML: &'static str = "profiles.yaml";

/// Why a directory could not be determined.
#[derive(Clone, Debug, PartialEq, Eq)]
pub enum DirsError {
    /// The executable has no parent directory.
    ExeDirUnavailable,
    /// The executable's path could not be found or made canonical; the
    /// system's message.
    ExeLookupFailed(String),
    /// The per-user data directory is unknown.
    HomeDirUnavailable,
    /// The resource directory is unknown.
    ResourceDirUnavailable,
    /// `LOCALAPPDATA` is not set.
    LocalAppDataUnset,
    /// The platform has no such path.
    Unsupported,
    /// No directory for the core's socket could be found.
    IpcPathUnavailable,
}

impl DirsError {
    /// A copy of the error.
    fn duplicate(&self) -> (r: DirsError)
        ensures
            r == *self,
    {
        match self {
            DirsError::ExeDirUnavailable => DirsError::ExeDirUnavailable,
            DirsError::ExeLookupFailed(e) => DirsError::ExeLookupFailed(e.clone()),
            DirsError::HomeDirUnavailable => DirsError::HomeDirUnavailable,
            DirsError::ResourceDirUnavailable => DirsError::ResourceDirUnavailable,
            DirsError::LocalAppDataUnset => DirsError::LocalAppDataUnset,
            DirsError::Unsupported => DirsError::Unsupported,
            DirsError::IpcPathUnavailable => DirsError::IpcPathUnavailable,
        }
    }

    /// The message the error is reported with.
    pub fn message(&self) -> (m: String)
        ensures
            *self == DirsError::ExeDirUnavailable ==> m@ == "failed to get exe directory"@,
            self matches DirsError::ExeLookupFailed(e) ==> m@ == e@,
            *self == DirsError::HomeDirUnavailable ==> m@ == "Failed to get the app homedirectory"@,
            *self == DirsError::ResourceDirUnavailable ==> m@ == "Failed to get the resource directory"@,
            *self == DirsError::LocalAppDataUnset ==> m@ == "LOCALAPPDATA not set"@,
            *self == DirsError::Unsupported ==> m@ == "no such path on this platform"@,
            *self == DirsError::IpcPathUnavailable ==> m@ == "Failed to determine ipc path"@,
    {
        match self {
            DirsError::ExeDirUnavailable => String::from_str("failed to get exe directory"),
            DirsError::ExeLookupFailed(e) => e.clone(),
            DirsError::HomeDirUnavailable => String::from_str("Failed to get the app homedirectory"),
            DirsError::ResourceDirUnavailable => String::from_str("Failed to get the resource directory"),
            DirsError::LocalAppDataUnset => String::from_str("LOCALAPPDATA not set"),
            DirsError::Unsupported => String::from_str("no such path on this platform"),
            DirsError::IpcPathUnavailable => String::from_str("Failed to determine ipc path"),
        }
    }
}

/// What the platform reported about the directories in use.
pub struct DirsEnv {
    /// The operating system.
    pub platform: Platform,
    /// Whether the portable `Data/` directory is in use.
    pub portable: bool,
    /// The canonical directory of the executable, or why it is unknown
    /// (`ExeLookupFailed` or `ExeDirUnavailable`).
    pub exe_dir: Result<AppPath, DirsError>,
    /// The per-user data directory (`AppData\Roaming`, `~/.local/share`, ...), if known.
    pub data_dir: Option<AppPath>,
    /// The bundle's resource directory, if known.
    pub resource_dir: Option<AppPath>,
    /// The value of `LOCALAPPDATA`, if set.
    pub local_app_data: Option<AppPath>,
    /// The value of `APPDATA`, if set.
    pub roaming_app_data: Option<AppPath>,
    /// The value of `WEBVIEW2_USER_DATA_FOLDER`, if set.
    pub webview_override: Option<String>,
    /// The system's temporary directory.
    pub temp_dir: AppPath,
}

/// A path result seen through the path model.
pub open spec fn path_result(r: Result<AppPath, DirsError>) -> Result<Seq<Seq<char>>, DirsError> {
    match r {
        Ok(p) => Ok(p@),
        Err(e) => Err(e),
    }
}

/// `r` with `name` appended to the path it holds.
pub open spec fn joined(r: Result<Seq<Seq<char>>, DirsError>, name: Seq<char>) -> Result<Seq<Seq<char>>, DirsError> {
    match r {
        Ok(p) => Ok(p.push(name)),
        Err(e) => Err(e),
    }
}

/// `<exe_dir>/Data`.
pub open spec fn spec_portable_data_root(env: DirsEnv) -> Result<Seq<Seq<char>>, DirsError> {
    match env.exe_dir {
        Ok(d) => Ok(d@.push("Data"@)),
        Err(e) => Err(e),
    }
}

/// `<exe_dir>/Data/app`.
pub open spec fn spec_portable_roaming_dir(env: DirsEnv) -> Result<Seq<Seq<char>>, DirsError> {
    joined(spec_portable_data_root(env), "app"@)
}

/// The application's home: `Data/app` when portable, else `<data_dir>/<APP_ID>`.
pub open spec fn spec_app_home_dir(env: DirsEnv) -> Result<Seq<Seq<char>>, DirsError> {
    if env.portable {
        spec_portable_roaming_dir(env)
    } else {
        match env.data_dir {
            Some(d) => Ok(d@.push(APP_ID@)),
            None => Err(DirsError::HomeDirUnavailable),
        }
    }
}

/// `<resource_dir>/resources`.
pub open spec fn spec_app_resources_dir(env: DirsEnv) -> Result<Seq<Seq<char>>, DirsError> {
    match env.resource_dir {
        Some(d) => Ok(d@.push("resources"@)),
        None => Err(DirsError::ResourceDirUnavailable),
    }
}

/// `<home>/logs`.
pub open spec fn spec_app_logs_dir(env: DirsEnv) -> Result<Seq<Seq<char>>, DirsError> {
    joined(spec_app_home_dir(env), "logs"@)
}

/// `<home>/logs/sidecar`.
pub open spec fn spec_sidecar_log_dir(env: DirsEnv) -> Result<Seq<Seq<char>>, DirsError> {
    joined(spec_app_logs_dir(env), "sidecar"@)
}

/// `<LOCALAPPDATA>/ClashVergeRev`.
pub open spec fn spec_local_webview_root(env: DirsEnv) -> Result<Seq<Seq<char>>, DirsError> {
    match env.local_app_data {
        Some(d) => Ok(d@.push("ClashVergeRev"@)),
        None => Err(DirsError::LocalAppDataUnset),
    }
}

/// The portable WebView2 directory: `Data/webview` if it can be written to,
/// else the local root.
pub open spec fn spec_effective_portable_webview_dir(env: DirsEnv, data_webview_writable: bool) -> Result<Seq<Seq<char>>, DirsError> {
    match spec_portable_data_root(env) {
        Ok(root) => if data_webview_writable {
            Ok(root.push("webview"@))
        } else {
            spec_local_webview_root(env)
        },
        Err(e) => Err(e),
    }
}

/// `<exe_dir>/Data`: the portable data root.
pub fn portable_data_root(env: &DirsEnv) -> (r: Result<AppPath, DirsError>)
    ensures
        path_result(r) == spec_portable_data_root(*env),
{
    match &env.exe_dir {
        Ok(d) => Ok(d.join("Data")),
        Err(e) => Err(e.duplicate()),
    }
}

/// `<exe_dir>/Data/app`: configuration and state in portable mode.
pub fn portable_roaming_dir(env: &DirsEnv) -> (r: Result<AppPath, DirsError>)
    ensures
        path_result(r) == spec_portable_roaming_dir(*env),
{
    let root = portable_data_root(env)?;
    Ok(root.join("app"))
}

/// The directory probed for `Data/` on start-up: `<exe parent>/Data`.
pub fn portable_data_candidate(exe_parent: &AppPath) -> (r: AppPath)
    ensures
        r@ == exe_parent@.push("Data"@),
{
    exe_parent.join("Data")
}

/// The application's home directory.
pub fn app_home_dir(env: &DirsEnv) -> (r: Result<AppPath, DirsError>)
    ensures
        path_result(r) == spec_app_home_dir(*env),
{
    if env.portable {
        return portable_roaming_dir(env);
    }
    match &env.data_dir {
        Some(d) => Ok(d.join(APP_ID)),
        None => Err(DirsError::HomeDirUnavailable),
    }
}

/// The bundled resources directory.
pub fn app_resources_dir(env: &DirsEnv) -> (r: Result<AppPath, DirsError>)
    ensures
        path_result(r) == spec_app_resources_dir(*env),
{
    match &env.resource_dir {
        Some(d) => Ok(d.join("resources")),
        None => Err(DirsError::ResourceDirUnavailable),
    }
}

/// `<home>/profiles`.
pub fn app_profiles_dir(env: &DirsEnv) -> (r: Result<AppPath, DirsError>)
    ensures
        path_result(r) == joined(spec_app_home_dir(*env), "profiles"@),
{
    Ok(app_home_dir(env)?.join("profiles"))
}

/// `<home>/icons`.
pub fn app_icons_dir(env: &DirsEnv) -> (r: Result<AppPath, DirsError>)
    ensures
        path_result(r) == joined(spec_app_home_dir(*env), "icons"@),
{
    Ok(app_home_dir(env)?.join("icons"))
}

/// `<home>/logs`.
pub fn app_logs_dir(env: &DirsEnv) -> (r: Result<AppPath, DirsError>)
    ensures
        path_result(r) == spec_app_logs_dir(*env),
{
    Ok(app_home_dir(env)?.join("logs"))
}

/// `<home>/logs/latest.log`.
pub fn app_latest_log(env: &DirsEnv) -> (r: Result<AppPath, DirsError>)
    ensures
        path_result(r) == joined(spec_app_logs_dir(*env), "latest.log"@),
{
    Ok(app_logs_dir(env)?.join("latest.log"))
}

/// `<home>/<BACKUP_DIR>`; the caller creates it.
pub fn local_backup_dir(env: &DirsEnv) -> (r: Result<AppPath, DirsError>)
    ensures
        path_result(r) == joined(spec_app_home_dir(*env), BACKUP_DIR@),
{
    Ok(app_home_dir(env)?.join(BACKUP_DIR))
}

/// `<home>/config.yaml`.
pub fn clash_path(env: &DirsEnv) -> (r: Result<AppPath, DirsError>)
    ensures
        path_result(r) == joined(spec_app_home_dir(*env), CLASH_CONFIG@),
{
    Ok(app_home_dir(env)?.join(CLASH_CONFIG))
}

/// `<home>/verge.yaml`.
pub fn verge_path(env: &DirsEnv) -> (r: Result<AppPath, DirsError>)
    ensures
        path_result(r) == joined(spec_app_home_dir(*env), VERGE_CONFIG@),
{
    Ok(app_home_dir(env)?.join(VERGE_CONFIG))
}

/// `<home>/profiles.yaml`.
pub fn profiles_path(env: &DirsEnv) -> (r: Result<AppPath, DirsError>)
    ensures
        path_result(r) == joined(spec_app_home_dir(*env), PROFILE_YAML@),
{
    Ok(app_home_dir(env)?.join(PROFILE_YAML))
}

/// The service executable in the resources directory; only Windows and macOS have one.
pub fn service_path(env: &DirsEnv) -> (r: Result<AppPath, DirsError>)
    ensures
        env.platform == Platform::Windows ==> path_result(r) == joined(spec_app_resources_dir(*env), "clash-verge-service.exe"@),
        env.platform == Platform::MacOs ==> path_result(r) == joined(spec_app_resources_dir(*env), "clash-verge-service"@),
        env.platform == Platform::OtherUnix ==> r == Err::<AppPath, DirsError>(DirsError::Unsupported),
{
    match env.platform {
        Platform::Windows => Ok(app_resources_dir(env)?.join("clash-verge-service.exe")),
        Platform::MacOs => Ok(app_resources_dir(env)?.join("clash-verge-service")),
        Platform::OtherUnix => Err(DirsError::Unsupported),
    }
}

/// `<home>/logs/sidecar`; the caller creates it.
pub fn sidecar_log_dir(env: &DirsEnv) -> (r: Result<AppPath, DirsError>)
    ensures
        path_result(r) == spec_sidecar_log_dir(*env),
{
    Ok(app_logs_dir(env)?.join("sidecar"))
}

/// `<home>/logs/service`; the caller creates it.
pub fn service_log_dir(env: &DirsEnv) -> (r: Result<AppPath, DirsError>)
    ensures
        path_result(r) == joined(spec_app_logs_dir(*env), "service"@),
{
    Ok(app_logs_dir(env)?.join("service"))
}

/// `<home>/logs/sidecar/sidecar_latest.log`.
pub fn clash_latest_log(env: &DirsEnv) -> (r: Result<AppPath, DirsError>)
    ensures
        path_result(r) == joined(spec_sidecar_log_dir(*env), "sidecar_latest.log"@),
{
    Ok(sidecar_log_dir(env)?.join("sidecar_latest.log"))
}

/// The display string of `path`.
pub fn path_to_str(path: &AppPath, platform: Platform) -> (s: String)
    ensures
        s@ == render(path@, platform),
{
    path.display(platform)
}

/// `<home>/.encryption_key`.
pub fn encryption_key_path(env: &DirsEnv) -> (r: Result<AppPath, DirsError>)
    ensures
        path_result(r) == joined(spec_app_home_dir(*env), ".encryption_key"@),
{
    Ok(app_home_dir(env)?.join(".encryption_key"))
}

} // verus!

verus! {

/// The first step in finding a directory for the core's socket.
pub enum SafeDirChoice {
    /// Use this directory as it is (`/tmp`, which exists).
    UseExisting(AppPath),
    /// Use this directory (`$HOME/.config`) if it exists or can be created.
    EnsureHomeConfig(AppPath),
    /// No candidate.
    Unavailable,
}

/// `/tmp` when it exists, else `$HOME/.config` when `HOME` is set.
pub fn ensure_mihomo_safe_dir(tmp_exists: bool, home: &Option<AppPath>) -> (r: SafeDirChoice)
    ensures
        tmp_exists ==> (r matches SafeDirChoice::UseExisting(p) && p@ == seq!["/tmp"@]),
        !tmp_exists && home is Some ==>
            (r matches SafeDirChoice::EnsureHomeConfig(p) && p@ == home.unwrap()@.push(".config"@)),
        !tmp_exists && home is None ==> r is Unavailable,
{
    if tmp_exists {
        return SafeDirChoice::UseExisting(AppPath::from_root("/tmp"));
    }
    match home {
        Some(h) => SafeDirChoice::EnsureHomeConfig(h.join(".config")),
        None => SafeDirChoice::Unavailable,
    }
}

/// The path of the core's control socket or pipe: a named pipe on Windows;
/// elsewhere `verge/verge-mihomo.sock` under the safe directory, else under
/// the application's home.
pub fn ipc_path(env: &DirsEnv, safe_dir: &Option<AppPath>) -> (r: Result<AppPath, DirsError>)
    ensures
        env.platform == Platform::Windows ==> (r matches Ok(p) && p@ == seq!["\\\\.\\pipe\\verge-mihomo"@]),
        env.platform != Platform::Windows ==> match safe_dir {
            Some(d) => path_result(r) == Ok::<Seq<Seq<char>>, DirsError>(d@.push("verge"@).push("verge-mihomo.sock"@)),
            None => match spec_app_home_dir(*env) {
                Ok(h) => path_result(r) == Ok::<Seq<Seq<char>>, DirsError>(h.push("verge"@).push("verge-mihomo.sock"@)),
                Err(_) => r == Err::<AppPath, DirsError>(DirsError::IpcPathUnavailable),
            },
        },
{
    if env.platform == Platform::Windows {
        return Ok(AppPath::from_root("\\\\.\\pipe\\verge-mihomo"));
    }
    if let Some(d) = safe_dir {
        return Ok(d.join("verge").join("verge-mihomo.sock"));
    }
    match app_home_dir(env) {
        Ok(h) => Ok(h.join("verge").join("verge-mihomo.sock")),
        Err(_) => Err(DirsError::IpcPathUnavailable),
    }
}

/// The display string of the first of `file_names` (the entries of
/// `icons_dir`, in listing order) whose prefix starts with `target` and whose
/// extension is `ico` or `png`, in the path of that entry.
pub fn find_target_icons(icons_dir: &AppPath, target: &str, file_names: &Vec<String>, platform: Platform) -> (r: Option<String>)
    ensures
        match r {
            Some(s) => exists|i: int| #![trigger file_names@[i]]
                0 <= i < file_names@.len()
                && crate::text::icon_name_matches(file_names@[i]@, target@)
                && (forall|j: int| 0 <= j < i ==> !crate::text::icon_name_matches(#[trigger] file_names@[j]@, target@))
                && s@ == render(icons_dir@.push(file_names@[i]@), platform),
            None => forall|i: int| 0 <= i < file_names@.len()
                ==> !crate::text::icon_name_matches(#[trigger] file_names@[i]@, target@),
        },
{
    let mut i: usize = 0;
    while i < file_names.len()
        invariant
            i <= file_names@.len(),
            forall|j: int| 0 <= j < i ==> !crate::text::icon_name_matches(#[trigger] file_names@[j]@, target@),
        decreases file_names@.len() - i,
    {
        if crate::text::icon_file_matches(file_names[i].as_str(), target) {
            let p = icons_dir.join(file_names[i].as_str());
            let s = p.display(platform);
            assert(file_names@[i as int]@ == file_names[i as int]@);
            return Some(s);
        }
        i = i + 1;
    }
    None
}

/// Why no encryption key could be made.
#[derive(Clone, Copy, Debug, PartialEq, Eq, Structural)]
pub enum KeyError {
    /// The system's random source failed.
    RandomSourceFailed,
}

/// The length of a newly made encryption key, in bytes.
pub const ENCRYPTION_KEY_LEN: usize = 32;

/// A new encryption key: `ENCRYPTION_KEY_LEN` bytes from the system's random
/// source (the caller stores it at `encryption_key_path`). Which bytes is left
/// to chance.
pub fn generate_encryption_key() -> (r: Result<Vec<u8>, KeyError>)
    ensures
        r matches Ok(key) ==> key@.len() == ENCRYPTION_KEY_LEN,
{
    let mut key: Vec<u8> = Vec::new();
    let mut i: usize = 0;
    while i < ENCRYPTION_KEY_LEN
        invariant
            i <= ENCRYPTION_KEY_LEN,
            key@.len() == i,
        decreases ENCRYPTION_KEY_LEN - i,
    {
        key.push(0u8);
        i = i + 1;
    }
    match crate::external::fill_random(&mut key) {
        Ok(()) => Ok(key),
        Err(_) => Err(KeyError::RandomSourceFailed),
    }
}

} // verus!

verus! {

/// In portable mode the application's home is `<exe_dir>/Data/app`, and the
/// configuration files, profiles, icons, logs, backups and key all lie inside it.
pub proof fn lemma_portable_layout(env: DirsEnv)
    requires
        env.portable,
        env.exe_dir is Ok,
    ensures ({
        let home = env.exe_dir->Ok_0@.push("Data"@).push("app"@);
        &&& spec_app_home_dir(env) == Ok::<Seq<Seq<char>>, DirsError>(home)
        &&& forall|name: Seq<char>| #![trigger joined(spec_app_home_dir(env), name)]
                joined(spec_app_home_dir(env), name) == Ok::<Seq<Seq<char>>, DirsError>(home.push(name))
                && path_starts_with(home.push(name), home)
        &&& joined(spec_app_logs_dir(env), "latest.log"@) == Ok::<Seq<Seq<char>>, DirsError>(home.push("logs"@).push("latest.log"@))
        &&& path_starts_with(home.push("logs"@).push("latest.log"@), home)
        &&& joined(spec_sidecar_log_dir(env), "sidecar_latest.log"@)
                == Ok::<Seq<Seq<char>>, DirsError>(home.push("logs"@).push("sidecar"@).push("sidecar_latest.log"@))
        &&& path_starts_with(home.push("logs"@).push("sidecar"@).push("sidecar_latest.log"@), home)
    }),
{
    let home = env.exe_dir->Ok_0@.push("Data"@).push("app"@);
    assert forall|name: Seq<char>| #![trigger joined(spec_app_home_dir(env), name)]
        joined(spec_app_home_dir(env), name) == Ok::<Seq<Seq<char>>, DirsError>(home.push(name))
        && path_starts_with(home.push(name), home) by {
        assert(home.push(name).subrange(0, home.len() as int) =~= home);
    }
    assert(home.push("logs"@).push("latest.log"@).subrange(0, home.len() as int) =~= home);
    assert(home.push("logs"@).push("sidecar"@).push("sidecar_latest.log"@).subrange(0, home.len() as int) =~= home);
}

/// In portable mode the home depends on the executable's directory alone:
/// the per-user data directory and the environment play no part.
pub proof fn lemma_portable_ignores_user_dirs(a: DirsEnv, b: DirsEnv)
    requires
        a.portable,
        b.portable,
        path_result(a.exe_dir) == path_result(b.exe_dir),
    ensures
        spec_app_home_dir(a) == spec_app_home_dir(b),
{
}

/// Whatever the layout, the logs lie in the application's home: the logs
/// directory is `<home>/logs` and the sidecar's `<home>/logs/sidecar`, both
/// under the home, and both fail exactly as the home does; in the installed
/// layout that is `<data_dir>/<APP_ID>/logs`.
pub proof fn lemma_logs_under_home(env: DirsEnv)
    ensures
        match spec_app_home_dir(env) {
            Ok(home) => {
                &&& spec_app_logs_dir(env) == Ok::<Seq<Seq<char>>, DirsError>(home.push("logs"@))
                &&& spec_sidecar_log_dir(env) == Ok::<Seq<Seq<char>>, DirsError>(home.push("logs"@).push("sidecar"@))
                &&& path_starts_with(home.push("logs"@), home)
                &&& path_starts_with(home.push("logs"@).push("sidecar"@), home)
            },
            Err(e) => spec_app_logs_dir(env) == Err::<Seq<Seq<char>>, DirsError>(e)
                && spec_sidecar_log_dir(env) == Err::<Seq<Seq<char>>, DirsError>(e),
        },
        !env.portable && env.data_dir is Some ==> spec_app_logs_dir(env)
            == Ok::<Seq<Seq<char>>, DirsError>(env.data_dir.unwrap()@.push(APP_ID@).push("logs"@)),
        !env.portable && env.data_dir is Some ==> spec_sidecar_log_dir(env)
            == Ok::<Seq<Seq<char>>, DirsError>(env.data_dir.unwrap()@.push(APP_ID@).push("logs"@).push("sidecar"@)),
{
    if let Ok(home) = spec_app_home_dir(env) {
        assert(home.push("logs"@).subrange(0, home.len() as int) =~= home);
        assert(home.push("logs"@).push("sidecar"@).subrange(0, home.len() as int) =~= home);
    }
}

/// Outside portable mode the home is `<data_dir>/<APP_ID>` and is unknown
/// exactly when the data directory is; the portable tree plays no part.
pub proof fn lemma_installed_layout(env: DirsEnv)
    requires
        !env.portable,
    ensures
        env.data_dir is Some ==> spec_app_home_dir(env) == Ok::<Seq<Seq<char>>, DirsError>(env.data_dir.unwrap()@.push(APP_ID@)),
        env.data_dir is None ==> spec_app_home_dir(env) == Err::<Seq<Seq<char>>, DirsError>(DirsError::HomeDirUnavailable),
{
}

} // verus!

verus! {

/// The encryption key to use.
pub struct EncryptionKey {
    pub key: Vec<u8>,
    /// Whether the key was just made, so that the caller stores it.
    pub is_new: bool,
}

/// The encryption key, given what the key file holds (`None` when there is
/// no key file): a stored key is used as it is; otherwise a new one is made
/// for the caller to store at `encryption_key_path`.
pub fn get_encryption_key(stored: Option<Vec<u8>>) -> (r: Result<EncryptionKey, KeyError>)
    ensures
        stored matches Some(k) ==> (r matches Ok(e) && e.key@ == k@ && !e.is_new),
        stored is None ==> (r matches Ok(e) ==> e.is_new && e.key@.len() == ENCRYPTION_KEY_LEN),
{
    match stored {
        Some(key) => Ok(EncryptionKey { key, is_new: false }),
        None => {
            let key = generate_encryption_key()?;
            Ok(EncryptionKey { key, is_new: true })
        },
    }
}

} // verus!
