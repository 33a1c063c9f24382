//! Start-up of the portable layout: where WebView2 keeps its data, which
//! directories of earlier layouts are merged into `Data/app` and
//! `Data/webview`, and which directory junctions are removed on exit.

use vstd::prelude::*;
use crate::path::{AppPath, Platform, render, join_text};
use crate::dirs::{
    DirsEnv, DirsError, APP_ID, LEGACY_APP_ID, path_result, joined, portable_data_root,
    spec_portable_data_root, spec_local_webview_root, spec_effective_portable_webview_dir,
};
use crate::text::str_equal;
use vstd::string::StringExecFns;
use vstd::string::StrSliceExecFns;

verus! {

/// `<LOCALAPPDATA>/ClashVergeRev`: WebView2 data outside the portable tree.
pub fn windows_portable_local_webview_root(env: &DirsEnv) -> (r: Result<AppPath, DirsError>)
    ensures
        path_result(r) == spec_local_webview_root(*env),
{
    match &env.local_app_data {
        Some(d) => Ok(d.join("ClashVergeRev")),
        None => Err(DirsError::LocalAppDataUnset),
    }
}

/// The sub-directory of an earlier layout that is merged into the local root.
pub fn legacy_webview_subdir(local_root: &AppPath) -> (r: AppPath)
    ensures
        r@ == local_root@.push("webview"@),
{
    local_root.join("webview")
}

/// `<exe_dir>/Data/webview`, the directory whose writability decides the
/// portable WebView2 directory.
pub fn webview_probe_dir(env: &DirsEnv) -> (r: Result<AppPath, DirsError>)
    ensures
        path_result(r) == joined(spec_portable_data_root(*env), "webview"@),
{
    Ok(portable_data_root(env)?.join("webview"))
}

/// The portable WebView2 directory, given whether `Data/webview` can be written to.
pub fn effective_portable_webview_user_data_dir(env: &DirsEnv, data_webview_writable: bool) -> (r: Result<AppPath, DirsError>)
    ensures
        path_result(r) == spec_effective_portable_webview_dir(*env, data_webview_writable),
{
    let under_data = portable_data_root(env)?.join("webview");
    if data_webview_writable {
        return Ok(under_data);
    }
    windows_portable_local_webview_root(env)
}

/// The WebView2 data directory of the portable build.
pub fn portable_webview2_dir(env: &DirsEnv, data_webview_writable: bool) -> (r: Result<AppPath, DirsError>)
    ensures
        env.platform == Platform::Windows && env.portable ==>
            path_result(r) == spec_effective_portable_webview_dir(*env, data_webview_writable),
        !(env.platform == Platform::Windows && env.portable) ==>
            path_result(r) == joined(spec_portable_data_root(*env), "webview"@),
{
    if env.platform == Platform::Windows && env.portable {
        return effective_portable_webview_user_data_dir(env, data_webview_writable);
    }
    Ok(portable_data_root(env)?.join("webview"))
}

/// Where the WebView2 data directory came from.
#[derive(Clone, Copy, Debug, PartialEq, Eq, Structural)]
pub enum WebviewSource {
    /// `WEBVIEW2_USER_DATA_FOLDER` was already set.
    Override,
    /// The writable `Data/webview` of the portable tree.
    PortableData,
    /// `<LOCALAPPDATA>/ClashVergeRev`, which can be written to; the caller
    /// creates it and merges its `webview` sub-directory into it.
    LocalRoot,
    /// `<temp>/ClashVergeRev`, when `LOCALAPPDATA` is not set or its
    /// directory cannot be written to.
    TempFallback,
}

/// The resolved WebView2 data directory.
pub struct WebviewFolder {
    pub source: WebviewSource,
    pub path: AppPath,
}

/// The WebView2 data directory on Windows, always some directory: an
/// existing setting, else the first of the portable `Data/webview` and the
/// local root that can be written to, else the directory under the system's
/// temporary directory.
pub open spec fn spec_webview_folder(
    env: DirsEnv,
    data_webview_writable: bool,
    local_root_writable: bool,
) -> (WebviewSource, Seq<Seq<char>>) {
    if env.webview_override is Some && env.webview_override.unwrap()@.len() > 0 {
        (WebviewSource::Override, seq![env.webview_override.unwrap()@])
    } else if env.portable && spec_portable_data_root(env) is Ok && data_webview_writable {
        (WebviewSource::PortableData, spec_portable_data_root(env).unwrap().push("webview"@))
    } else if env.local_app_data is Some && local_root_writable {
        (WebviewSource::LocalRoot, env.local_app_data.unwrap()@.push("ClashVergeRev"@))
    } else {
        (WebviewSource::TempFallback, env.temp_dir@.push("ClashVergeRev"@))
    }
}

/// The value for `WEBVIEW2_USER_DATA_FOLDER`, which must be a directory that
/// can be written to: an existing setting, else the portable directory when
/// `Data/webview` can be written to, else the local root when it can be
/// written to, else a directory under the system's temporary directory
/// (the last resort, taken whatever it allows).
pub fn resolve_windows_webview_user_data_folder(
    env: &DirsEnv,
    data_webview_writable: bool,
    local_root_writable: bool,
) -> (r: WebviewFolder)
    ensures
        (r.source, r.path@) == spec_webview_folder(*env, data_webview_writable, local_root_writable),
        r.source == WebviewSource::PortableData ==> data_webview_writable,
        r.source == WebviewSource::LocalRoot ==> local_root_writable,
{
    if let Some(s) = &env.webview_override {
        if s.unicode_len() > 0 {
            return WebviewFolder { source: WebviewSource::Override, path: AppPath::from_root(s.as_str()) };
        }
    }
    if env.portable {
        if let Ok(p) = effective_portable_webview_user_data_dir(env, data_webview_writable) {
            if data_webview_writable {
                return WebviewFolder { source: WebviewSource::PortableData, path: p };
            }
            if local_root_writable {
                return WebviewFolder { source: WebviewSource::LocalRoot, path: p };
            }
        }
    }
    if local_root_writable {
        if let Ok(p) = windows_portable_local_webview_root(env) {
            return WebviewFolder { source: WebviewSource::LocalRoot, path: p };
        }
    }
    WebviewFolder { source: WebviewSource::TempFallback, path: env.temp_dir.join("ClashVergeRev") }
}

/// The WebView2 directory of the installed (non-portable) build: the local
/// root, or nothing when portable or when `LOCALAPPDATA` is not set.
pub fn bootstrap_windows_non_portable_webview(env: &DirsEnv) -> (r: Option<AppPath>)
    ensures
        env.portable ==> r is None,
        !env.portable ==> match spec_local_webview_root(*env) {
            Ok(p) => (r matches Some(q) && q@ == p),
            Err(_) => r is None,
        },
        !env.portable ==> (r is Some <==> spec_webview2_export(*env, false) is Some),
        r matches Some(q) ==> render(q@, env.platform) == spec_webview2_export(*env, false)->Some_0,
{
    if env.portable {
        return None;
    }
    match windows_portable_local_webview_root(env) {
        Ok(p) => Some(p),
        Err(_) => None,
    }
}

/// One directory of an earlier layout to merge into a current one.
pub struct Migration {
    pub src: AppPath,
    pub dst: AppPath,
}

/// The migrations as pairs of paths.
pub open spec fn migrations_view(v: Seq<Migration>) -> Seq<(Seq<Seq<char>>, Seq<Seq<char>>)> {
    v.map_values(|m: Migration| (m.src@, m.dst@))
}

/// The directories of earlier layouts merged on start-up, in order: the
/// `.config/<id>` beside the executable, `Data/<id>` (and the legacy id when
/// it differs), `Data/system_settings`, `Data/app_local`, `Data/Roaming` and
/// `Data/Local`, each for both ids; configuration goes to `app`, browser data
/// to `webview`.
pub open spec fn spec_portable_migrations(
    root: Seq<Seq<char>>,
    app: Seq<Seq<char>>,
    webview: Seq<Seq<char>>,
) -> Seq<(Seq<Seq<char>>, Seq<Seq<char>>)> {
    spec_migration_head(root, app) + spec_migration_tail(root, app, webview)
}

/// The `.config/<APP_ID>` beside the executable (the parent of `root`), if `root` has one.
pub open spec fn spec_beside_exe_migration(root: Seq<Seq<char>>, app: Seq<Seq<char>>) -> Seq<(Seq<Seq<char>>, Seq<Seq<char>>)> {
    if root.len() >= 2 {
        seq![(root.drop_last().push(".config"@).push(APP_ID@), app)]
    } else {
        Seq::empty()
    }
}

/// `Data/<LEGACY_APP_ID>`, when the legacy id differs from the current one.
pub open spec fn spec_legacy_root_migration(root: Seq<Seq<char>>, app: Seq<Seq<char>>) -> Seq<(Seq<Seq<char>>, Seq<Seq<char>>)> {
    if LEGACY_APP_ID@ != APP_ID@ {
        seq![(root.push(LEGACY_APP_ID@), app)]
    } else {
        Seq::empty()
    }
}

/// The migrations out of the executable's directory and `Data/<id>`.
pub open spec fn spec_migration_head(root: Seq<Seq<char>>, app: Seq<Seq<char>>) -> Seq<(Seq<Seq<char>>, Seq<Seq<char>>)> {
    spec_beside_exe_migration(root, app) + seq![(root.push(APP_ID@), app)] + spec_legacy_root_migration(root, app)
}

/// The migrations out of `Data/system_settings`, `Data/app_local`,
/// `Data/Roaming` and `Data/Local`.
pub open spec fn spec_migration_tail(
    root: Seq<Seq<char>>,
    app: Seq<Seq<char>>,
    webview: Seq<Seq<char>>,
) -> Seq<(Seq<Seq<char>>, Seq<Seq<char>>)> {
    let id = APP_ID@;
    let legacy = LEGACY_APP_ID@;
    seq![
        (root.push("system_settings"@).push(id), app),
        (root.push("system_settings"@).push(legacy), app),
        (root.push("app_local"@).push(id), webview),
        (root.push("app_local"@).push(legacy), webview),
        (root.push("Roaming"@).push(id), app),
        (root.push("Roaming"@).push(legacy), app),
        (root.push("Local"@).push(id), webview),
        (root.push("Local"@).push(legacy), webview),
    ]
}

/// The log line noting that WebView2 data does not live under `Data/webview`.
pub open spec fn spec_fallback_note(webview: Seq<Seq<char>>, platform: Platform) -> Seq<char> {
    "webview2_dir fallback (e.g. Program Files not writable): "@ + render(webview, platform)
}

/// What to do to set up the portable layout.
pub struct PortableBootstrapPlan {
    /// `Data/`.
    pub data_root: AppPath,
    /// `Data/app`, created by the caller.
    pub app_dir: AppPath,
    /// The WebView2 directory, created by the caller and exported as
    /// `WEBVIEW2_USER_DATA_FOLDER`.
    pub webview2_dir: AppPath,
    /// The value exported as `WEBVIEW2_USER_DATA_FOLDER`: the WebView2
    /// directory's display string.
    pub webview_env_value: String,
    /// A log line when the WebView2 directory is not `Data/webview`.
    pub fallback_note: Option<String>,
    /// The directories to merge, in order.
    pub migrations: Vec<Migration>,
}

/// The outcome of planning the portable start-up.
pub enum PortableBootstrap {
    /// Not running portable: nothing to do.
    Inactive,
    /// `Data/` could not be located.
    DataRootFailed(DirsError),
    /// No WebView2 directory could be determined.
    WebviewDirFailed(DirsError),
    /// Carry out the plan.
    Run(PortableBootstrapPlan),
}

fn push_migration(v: &mut Vec<Migration>, src: AppPath, dst: &AppPath)
    ensures
        migrations_view(final(v)@) == migrations_view(old(v)@).push((src@, dst@)),
{
    let ghost before = v@;
    v.push(Migration { src, dst: dst.clone() });
    assert(migrations_view(v@) =~= migrations_view(before).push((src@, dst@)));
}

/// The directories to merge into `app_dir` and `webview2_dir` below `data_root`.
pub fn portable_migrations(data_root: &AppPath, app_dir: &AppPath, webview2_dir: &AppPath) -> (v: Vec<Migration>)
    ensures
        migrations_view(v@) == spec_portable_migrations(data_root@, app_dir@, webview2_dir@),
{
    let mut v: Vec<Migration> = Vec::new();
    let ghost root = data_root@;
    let ghost app = app_dir@;
    let ghost web = webview2_dir@;
    if let Some(exe_parent) = data_root.parent() {
        push_migration(&mut v, exe_parent.join(".config").join(APP_ID), app_dir);
    }
    let ghost first = migrations_view(v@);
    push_migration(&mut v, data_root.join(APP_ID), app_dir);
    let different = !str_equal(LEGACY_APP_ID, APP_ID);
    if different {
        push_migration(&mut v, data_root.join(LEGACY_APP_ID), app_dir);
    }
    let ghost second = migrations_view(v@);
    push_migration(&mut v, data_root.join("system_settings").join(APP_ID), app_dir);
    push_migration(&mut v, data_root.join("system_settings").join(LEGACY_APP_ID), app_dir);
    push_migration(&mut v, data_root.join("app_local").join(APP_ID), webview2_dir);
    push_migration(&mut v, data_root.join("app_local").join(LEGACY_APP_ID), webview2_dir);
    push_migration(&mut v, data_root.join("Roaming").join(APP_ID), app_dir);
    push_migration(&mut v, data_root.join("Roaming").join(LEGACY_APP_ID), app_dir);
    push_migration(&mut v, data_root.join("Local").join(APP_ID), webview2_dir);
    push_migration(&mut v, data_root.join("Local").join(LEGACY_APP_ID), webview2_dir);
    proof {
        assert(first =~= spec_beside_exe_migration(root, app));
        assert(second =~= spec_migration_head(root, app));
        assert(migrations_view(v@) =~= spec_portable_migrations(root, app, web));
    }
    v
}

/// Plans the portable start-up: nothing unless portable; otherwise `Data/app`,
/// the WebView2 directory (given whether `Data/webview` can be written to) and
/// the directories of earlier layouts to merge.
pub fn bootstrap_portable_environment(env: &DirsEnv, data_webview_writable: bool) -> (r: PortableBootstrap)
    ensures
        !env.portable ==> r is Inactive,
        env.portable && spec_portable_data_root(*env) is Err ==>
            r == PortableBootstrap::DataRootFailed(spec_portable_data_root(*env)->Err_0),
        env.portable && spec_portable_data_root(*env) is Ok
            && spec_effective_portable_webview_dir(*env, data_webview_writable) is Err ==>
            r == PortableBootstrap::WebviewDirFailed(spec_effective_portable_webview_dir(*env, data_webview_writable)->Err_0),
        env.portable && spec_portable_data_root(*env) is Ok
            && spec_effective_portable_webview_dir(*env, data_webview_writable) is Ok ==> {
            let root = spec_portable_data_root(*env)->Ok_0;
            let web = spec_effective_portable_webview_dir(*env, data_webview_writable)->Ok_0;
            &&& r is Run
            &&& r->Run_0.data_root@ == root
            &&& r->Run_0.app_dir@ == root.push("app"@)
            &&& r->Run_0.webview2_dir@ == web
            &&& r->Run_0.webview_env_value@ == render(web, env.platform)
            &&& (web == root.push("webview"@) ==> r->Run_0.fallback_note is None)
            &&& (web != root.push("webview"@) ==> (r->Run_0.fallback_note matches Some(note)
                    && note@ == spec_fallback_note(web, env.platform)))
            &&& migrations_view(r->Run_0.migrations@) == spec_portable_migrations(root, root.push("app"@), web)
        },
        env.portable ==> (r is Run <==> spec_webview2_export(*env, data_webview_writable) is Some),
        r is Run ==> r->Run_0.webview_env_value@ == spec_webview2_export(*env, data_webview_writable)->Some_0,
{
    if !env.portable {
        return PortableBootstrap::Inactive;
    }
    let data_root = match portable_data_root(env) {
        Ok(p) => p,
        Err(e) => return PortableBootstrap::DataRootFailed(e),
    };
    let app_dir = data_root.join("app");
    let webview2_dir = match effective_portable_webview_user_data_dir(env, data_webview_writable) {
        Ok(p) => p,
        Err(e) => return PortableBootstrap::WebviewDirFailed(e),
    };
    let default_webview = data_root.join("webview");
    let fallback_note = if webview2_dir.same_path(&default_webview) {
        None
    } else {
        let mut note = String::from_str("webview2_dir fallback (e.g. Program Files not writable): ");
        let shown = webview2_dir.display(env.platform);
        note.append(shown.as_str());
        Some(note)
    };
    let migrations = portable_migrations(&data_root, &app_dir, &webview2_dir);
    let webview_env_value = webview2_dir.display(env.platform);
    PortableBootstrap::Run(PortableBootstrapPlan { data_root, app_dir, webview2_dir, webview_env_value, fallback_note, migrations })
}

/// What to do with one directory of an earlier layout.
pub enum MigrateDecision {
    /// It is a directory junction: leave it, and log the line.
    SkipJunction(String),
    /// It is not a directory: nothing to do.
    NotADirectory,
    /// Move its entries into the destination.
    Proceed,
}

/// Junctions are left alone, anything but a directory is ignored, a plain
/// directory is merged.
pub fn migrate_decision(src: &AppPath, is_junction: bool, is_dir: bool, platform: Platform) -> (r: MigrateDecision)
    ensures
        is_junction ==> (r matches MigrateDecision::SkipJunction(line)
            && line@ == "migrate skip (junction): "@ + render(src@, platform)),
        !is_junction && !is_dir ==> r is NotADirectory,
        !is_junction && is_dir ==> r is Proceed,
{
    if is_junction {
        let mut line = String::from_str("migrate skip (junction): ");
        let shown = src.display(platform);
        line.append(shown.as_str());
        return MigrateDecision::SkipJunction(line);
    }
    if !is_dir {
        return MigrateDecision::NotADirectory;
    }
    MigrateDecision::Proceed
}

/// The log line summing up one merge.
pub fn migrate_summary_line(src: &AppPath, dst: &AppPath, moved: u32, platform: Platform) -> (line: String)
    ensures
        line@ == "migrate "@ + render(src@, platform) + " -> "@ + render(dst@, platform) + ": "@
            + crate::text::decimal(moved as nat) + " files moved"@,
{
    let mut line = String::from_str("migrate ");
    let s = src.display(platform);
    line.append(s.as_str());
    line.append(" -> ");
    let d = dst.display(platform);
    line.append(d.as_str());
    line.append(": ");
    crate::text::push_decimal(&mut line, moved as u64);
    line.append(" files moved");
    line
}

/// The junctions an earlier portable release left under `%LOCALAPPDATA%` and
/// `%APPDATA%`, removed on exit (only when portable).
pub open spec fn spec_junction_targets(env: DirsEnv) -> Seq<Seq<Seq<char>>> {
    if !env.portable {
        Seq::empty()
    } else {
        ids_under(env.local_app_data) + ids_under(env.roaming_app_data)
    }
}

/// `<base>/<APP_ID>` and `<base>/<LEGACY_APP_ID>`, if `base` is known.
pub open spec fn ids_under(base: Option<AppPath>) -> Seq<Seq<Seq<char>>> {
    match base {
        Some(b) => seq![b@.push(APP_ID@), b@.push(LEGACY_APP_ID@)],
        None => Seq::empty(),
    }
}

/// The paths as component sequences.
pub open spec fn paths_view(v: Seq<AppPath>) -> Seq<Seq<Seq<char>>> {
    v.map_values(|p: AppPath| p@)
}

fn push_ids(v: &mut Vec<AppPath>, base: &Option<AppPath>)
    ensures
        paths_view(final(v)@) == paths_view(old(v)@) + ids_under(*base),
{
    let ghost before = v@;
    if let Some(b) = base {
        v.push(b.join(APP_ID));
        v.push(b.join(LEGACY_APP_ID));
    }
    assert(paths_view(v@) =~= paths_view(before) + ids_under(*base));
}

/// The directory junctions to remove on exit.
pub fn cleanup_junctions(env: &DirsEnv) -> (r: Vec<AppPath>)
    ensures
        paths_view(r@) == spec_junction_targets(*env),
{
    let mut v: Vec<AppPath> = Vec::new();
    if !env.portable {
        assert(paths_view(v@) =~= Seq::<Seq<Seq<char>>>::empty());
        return v;
    }
    push_ids(&mut v, &env.local_app_data);
    push_ids(&mut v, &env.roaming_app_data);
    assert(paths_view(v@) =~= spec_junction_targets(*env));
    v
}

/// Whether to delete the path on this attempt: only a directory junction is
/// ever deleted (a plain directory, such as live WebView2 data, is left
/// alone, and so is a path whose check failed), and at most two attempts are
/// made. `is_junction` is the check's answer, `None` when the check failed.
pub fn junction_should_delete(is_junction: Option<bool>, attempts_done: u32) -> (r: bool)
    ensures
        r == (attempts_done < 2 && is_junction == Some(true)),
{
    attempts_done < 2 && match is_junction {
        Some(j) => j,
        None => false,
    }
}

} // verus!

verus! {

/// Every directory of an earlier layout is merged either into `Data/app` or
/// into the WebView2 directory.
pub proof fn lemma_migrations_land_in_current_layout(
    root: Seq<Seq<char>>,
    app: Seq<Seq<char>>,
    webview: Seq<Seq<char>>,
)
    ensures
        forall|i: int| 0 <= i < spec_portable_migrations(root, app, webview).len() ==>
            (#[trigger] spec_portable_migrations(root, app, webview)[i]).1 == app
            || spec_portable_migrations(root, app, webview)[i].1 == webview,
{
    let m = spec_portable_migrations(root, app, webview);
    let head = spec_migration_head(root, app);
    let tail = spec_migration_tail(root, app, webview);
    let beside_exe = spec_beside_exe_migration(root, app);
    let legacy_root = spec_legacy_root_migration(root, app);
    assert forall|i: int| 0 <= i < m.len() implies (#[trigger] m[i]).1 == app || m[i].1 == webview by {
        if i < head.len() {
            assert(m[i] == head[i]);
            if i < beside_exe.len() {
                assert(head[i] == beside_exe[i]);
            } else if i > beside_exe.len() {
                assert(head[i] == legacy_root[i - beside_exe.len() - 1]);
            }
        } else {
            assert(m[i] == tail[i - head.len()]);
        }
    }
}

/// Which directories are merged does not depend on where the WebView2
/// directory is: moving it changes no source and no count, and the two
/// `Data/Local/<id>` directories (current and legacy id) are always merged
/// into it, as are `Data/app_local/<id>`.
pub proof fn lemma_migration_sources_ignore_webview(
    root: Seq<Seq<char>>,
    app: Seq<Seq<char>>,
    web: Seq<Seq<char>>,
    web2: Seq<Seq<char>>,
)
    ensures ({
        let m = spec_portable_migrations(root, app, web);
        let m2 = spec_portable_migrations(root, app, web2);
        &&& m.len() == m2.len()
        &&& forall|i: int| 0 <= i < m.len() ==> (#[trigger] m[i]).0 == m2[i].0
        &&& m.contains((root.push("Local"@).push(APP_ID@), web))
        &&& m.contains((root.push("Local"@).push(LEGACY_APP_ID@), web))
        &&& m.contains((root.push("app_local"@).push(APP_ID@), web))
        &&& m.contains((root.push("app_local"@).push(LEGACY_APP_ID@), web))
    }),
{
    let m = spec_portable_migrations(root, app, web);
    let m2 = spec_portable_migrations(root, app, web2);
    let head = spec_migration_head(root, app);
    let tail = spec_migration_tail(root, app, web);
    let tail2 = spec_migration_tail(root, app, web2);
    assert forall|i: int| 0 <= i < m.len() implies (#[trigger] m[i]).0 == m2[i].0 by {
        if i < head.len() {
            assert(m[i] == head[i]);
            assert(m2[i] == head[i]);
        } else {
            assert(m[i] == tail[i - head.len()]);
            assert(m2[i] == tail2[i - head.len()]);
        }
    }
    let n = head.len() as int;
    assert(m[n + 2] == tail[2]);
    assert(m[n + 3] == tail[3]);
    assert(m[n + 6] == tail[6]);
    assert(m[n + 7] == tail[7]);
}

/// The WebView2 directory the portable start-up exports is the one that
/// `resolve_windows_webview_user_data_folder` reports when the variable was
/// not already set and that directory can be written to, and the one
/// `portable_webview2_dir` reports on Windows.
pub proof fn lemma_bootstrap_matches_resolution(
    env: DirsEnv,
    data_webview_writable: bool,
    local_root_writable: bool,
)
    requires
        env.portable,
        env.platform == Platform::Windows,
        env.webview_override is None,
        spec_portable_data_root(env) is Ok,
        spec_effective_portable_webview_dir(env, data_webview_writable) is Ok,
        data_webview_writable || local_root_writable,
    ensures
        spec_webview_folder(env, data_webview_writable, local_root_writable).1
            == spec_effective_portable_webview_dir(env, data_webview_writable)->Ok_0,
{
}

/// Once the start-up has exported a WebView2 directory `w` (as its display
/// string), resolving again gives that same directory back: the exported
/// setting wins, and it displays as `w` does.
pub proof fn lemma_exported_folder_resolves_back(
    env: DirsEnv,
    w: Seq<Seq<char>>,
    data_webview_writable: bool,
    local_root_writable: bool,
)
    requires
        env.webview_override matches Some(s) && s@ == render(w, env.platform),
        render(w, env.platform).len() > 0,
    ensures
        spec_webview_folder(env, data_webview_writable, local_root_writable).0 == WebviewSource::Override,
        render(spec_webview_folder(env, data_webview_writable, local_root_writable).1, env.platform)
            == render(w, env.platform),
{
    let shown = render(w, env.platform);
    let one = seq![shown];
    assert(one.drop_last() =~= Seq::<Seq<char>>::empty());
    assert(render(one, env.platform) == join_text(render(one.drop_last(), env.platform), shown, env.platform));
}

/// The value the process's first step exports as `WEBVIEW2_USER_DATA_FOLDER`
/// (the display string of the directory the start-up plans), if it exports
/// one: the portable start-up's WebView2 directory, or the installed build's
/// local root.
pub open spec fn spec_webview2_export(env: DirsEnv, data_webview_writable: bool) -> Option<Seq<char>> {
    if env.portable {
        match spec_effective_portable_webview_dir(env, data_webview_writable) {
            Ok(web) => Some(render(web, env.platform)),
            Err(_) => None,
        }
    } else {
        match spec_local_webview_root(env) {
            Ok(root) => Some(render(root, env.platform)),
            Err(_) => None,
        }
    }
}

/// A path ending in `part` displays at least as long as `part`.
proof fn lemma_render_ends_with_part(parts: Seq<Seq<char>>, part: Seq<char>, platform: Platform)
    ensures
        render(parts.push(part), platform).len() >= part.len(),
{
    assert(parts.push(part).drop_last() =~= parts);
}

/// After the process's first step has exported a WebView2 directory,
/// resolving it gives that very directory back (whatever is then probed),
/// and it is the directory the resolution picks before the export when
/// nothing was set and that directory can be written to.
pub proof fn lemma_bootstrap_then_resolve(
    env: DirsEnv,
    after: DirsEnv,
    data_webview_writable: bool,
    later_data_writable: bool,
    later_local_writable: bool,
)
    requires
        spec_webview2_export(env, data_webview_writable) is Some,
        after.platform == env.platform,
        after.webview_override matches Some(s) && s@ == spec_webview2_export(env, data_webview_writable)->Some_0,
    ensures ({
        let v = spec_webview2_export(env, data_webview_writable)->Some_0;
        let resolved = spec_webview_folder(after, later_data_writable, later_local_writable);
        &&& resolved.0 == WebviewSource::Override
        &&& render(resolved.1, after.platform) == v
        &&& (env.webview_override is None ==> render(spec_webview_folder(env, data_webview_writable, true).1, env.platform) == v)
    }),
{
    let v = spec_webview2_export(env, data_webview_writable)->Some_0;
    reveal_strlit("webview");
    reveal_strlit("ClashVergeRev");
    if env.portable {
        let root = spec_portable_data_root(env)->Ok_0;
        if data_webview_writable {
            lemma_render_ends_with_part(root, "webview"@, env.platform);
        } else {
            lemma_render_ends_with_part(env.local_app_data.unwrap()@, "ClashVergeRev"@, env.platform);
        }
    } else {
        lemma_render_ends_with_part(env.local_app_data.unwrap()@, "ClashVergeRev"@, env.platform);
    }
    assert(v.len() > 0);
    let one = seq![v];
    assert(one.drop_last() =~= Seq::<Seq<char>>::empty());
    assert(render(one, env.platform) == join_text(render(one.drop_last(), env.platform), v, env.platform));
}

/// The installed build's WebView2 directory is the one that
/// `resolve_windows_webview_user_data_folder` reports when the variable was
/// not already set and that directory can be written to.
pub proof fn lemma_installed_webview_matches_resolution(env: DirsEnv, data_webview_writable: bool)
    requires
        !env.portable,
        env.webview_override is None,
        spec_local_webview_root(env) is Ok,
    ensures
        spec_webview_folder(env, data_webview_writable, true)
            == (WebviewSource::LocalRoot, spec_local_webview_root(env)->Ok_0),
{
}

} // verus!

verus! {

/// Where one entry named `name` of a directory being merged goes: into
/// `dst`, unless `dst` already has an entry of that name, which is left alone.
pub fn migrate_entry_target(dst: &AppPath, name: &str, target_exists: bool) -> (r: Option<AppPath>)
    ensures
        target_exists ==> r is None,
        !target_exists ==> (r matches Some(t) && t@ == dst@.push(name@)),
{
    if target_exists {
        None
    } else {
        Some(dst.join(name))
    }
}

/// The count of moved entries after one more move attempt: one more when the
/// entry was moved (held at `u32::MAX`), unchanged when the move failed.
pub fn count_moved(moved: u32, renamed: bool) -> (r: u32)
    ensures
        renamed && moved < u32::MAX ==> r == moved + 1,
        !(renamed && moved < u32::MAX) ==> r == moved,
{
    if renamed && moved < u32::MAX {
        moved + 1
    } else {
        moved
    }
}

} // verus!
