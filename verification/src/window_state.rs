//! Saving and restoring the main window's geometry.
//!
//! The saved geometry is restored only where it still overlaps a monitor;
//! otherwise the window is centred. Reading the window and the monitors, and
//! the JSON file itself, are left to the caller.

use vstd::prelude::*;
use crate::path::AppPath;
use crate::dirs::{DirsEnv, app_home_dir, spec_app_home_dir};

verus! {

/// The file the geometry is kept in, in the application's home.
pub const WINDOW_STATE: &'static str = "window_state.json";

/// The width used when none was saved.
pub const DEFAULT_WIDTH: u32 = 940;
/// The height used when none was saved.
pub const DEFAULT_HEIGHT: u32 = 700;

/// The saved window geometry; each field may be missing.
#[derive(Clone, Copy, Debug, PartialEq, Eq, Structural)]
pub struct WindowStateData {
    pub x: Option<i32>,
    pub y: Option<i32>,
    pub width: Option<u32>,
    pub height: Option<u32>,
}

/// A monitor's area: its top-left corner and its size, in physical pixels.
#[derive(Clone, Copy, Debug, PartialEq, Eq, Structural)]
pub struct MonitorRect {
    pub x: i32,
    pub y: i32,
    pub width: u32,
    pub height: u32,
}

/// `<home>/window_state.json`, if the home directory is known.
pub open spec fn spec_window_state_path(env: DirsEnv) -> Option<Seq<Seq<char>>> {
    match spec_app_home_dir(env) {
        Ok(h) => Some(h.push(WINDOW_STATE@)),
        Err(_) => None,
    }
}

/// `<home>/window_state.json`, if the home directory is known.
pub fn window_state_path(env: &DirsEnv) -> (r: Option<AppPath>)
    ensures
        match r {
            Some(p) => spec_window_state_path(*env) == Some(p@),
            None => spec_window_state_path(*env) is None,
        },
{
    match app_home_dir(env) {
        Ok(d) => Some(d.join(WINDOW_STATE)),
        Err(_) => None,
    }
}

/// The geometry to save, from the window's outer position and inner size
/// (each missing when the window could not report it).
pub fn window_state_data(position: Option<(i32, i32)>, size: Option<(u32, u32)>) -> (d: WindowStateData)
    ensures
        d.x == (match position { Some(p) => Some(p.0), None => None::<i32> }),
        d.y == (match position { Some(p) => Some(p.1), None => None::<i32> }),
        d.width == (match size { Some(s) => Some(s.0), None => None::<u32> }),
        d.height == (match size { Some(s) => Some(s.1), None => None::<u32> }),
{
    let (x, y) = match position {
        Some(p) => (Some(p.0), Some(p.1)),
        None => (None, None),
    };
    let (width, height) = match size {
        Some(s) => (Some(s.0), Some(s.1)),
        None => (None, None),
    };
    WindowStateData { x, y, width, height }
}

/// `v` clamped to the range of `i32` (the result of `i32::saturating_add`).
pub open spec fn saturate_i32(v: int) -> int {
    if v > i32::MAX { i32::MAX as int } else if v < i32::MIN { i32::MIN as int } else { v }
}

/// `w` reinterpreted as a signed 32-bit value (`w as i32`).
pub open spec fn wrap_i32(w: u32) -> int {
    if w <= i32::MAX { w as int } else { w - 0x1_0000_0000 }
}

/// `a.saturating_add(b)` for `i32`.
pub fn saturating_add_i32(a: i32, b: i32) -> (r: i32)
    ensures
        r == saturate_i32(a + b),
{
    let s: i64 = a as i64 + b as i64;
    if s > i32::MAX as i64 {
        i32::MAX
    } else if s < i32::MIN as i64 {
        i32::MIN
    } else {
        s as i32
    }
}

/// `w as i32`.
pub fn as_i32(w: u32) -> (r: i32)
    ensures
        r == wrap_i32(w),
{
    if w <= i32::MAX as u32 {
        w as i32
    } else {
        let v: i64 = w as i64 - 0x1_0000_0000i64;
        v as i32
    }
}

/// The rectangle `(x, y, width, height)` overlaps `m`: the far edges are
/// computed with `as i32` on the sizes and a
/// saturating addition.
pub open spec fn overlaps(m: MonitorRect, x: i32, y: i32, width: u32, height: u32) -> bool {
    let win_right = saturate_i32(x + wrap_i32(width));
    let win_bottom = saturate_i32(y + wrap_i32(height));
    let mx2 = saturate_i32(m.x + wrap_i32(m.width));
    let my2 = saturate_i32(m.y + wrap_i32(m.height));
    x < mx2 && win_right > m.x && y < my2 && win_bottom > m.y
}

/// The rectangle is acceptable: the monitors could not be listed, none were
/// listed, or one of them overlaps it.
pub open spec fn on_some_monitor(monitors: Option<Seq<MonitorRect>>, x: i32, y: i32, width: u32, height: u32) -> bool {
    match monitors {
        None => true,
        Some(ms) => ms.len() == 0 || exists|i: int| 0 <= i < ms.len() && overlaps(#[trigger] ms[i], x, y, width, height),
    }
}

/// The monitors as a sequence, if they could be listed.
pub open spec fn monitors_view(monitors: &Option<Vec<MonitorRect>>) -> Option<Seq<MonitorRect>> {
    match monitors {
        Some(v) => Some(v@),
        None => None,
    }
}

/// Whether the window rectangle overlaps any monitor (`monitors` is `None`
/// when they could not be listed, which counts as overlapping).
pub fn window_rect_intersects_any_monitor(monitors: &Option<Vec<MonitorRect>>, x: i32, y: i32, width: u32, height: u32) -> (r: bool)
    ensures
        r == on_some_monitor(monitors_view(monitors), x, y, width, height),
{
    let ms = match monitors {
        None => return true,
        Some(ms) => ms,
    };
    if ms.len() == 0 {
        return true;
    }
    let win_right = saturating_add_i32(x, as_i32(width));
    let win_bottom = saturating_add_i32(y, as_i32(height));
    let mut i: usize = 0;
    while i < ms.len()
        invariant
            i <= ms@.len(),
            monitors_view(monitors) == Some(ms@),
            win_right == saturate_i32(x + wrap_i32(width)),
            win_bottom == saturate_i32(y + wrap_i32(height)),
            forall|j: int| 0 <= j < i ==> !overlaps(#[trigger] ms@[j], x, y, width, height),
        decreases ms@.len() - i,
    {
        let m = ms[i];
        let mx2 = saturating_add_i32(m.x, as_i32(m.width));
        let my2 = saturating_add_i32(m.y, as_i32(m.height));
        if x < mx2 && win_right > m.x && y < my2 && win_bottom > m.y {
            assert(overlaps(ms@[i as int], x, y, width, height));
            assert(monitors_view(monitors) == Some(ms@));
            assert(exists|k: int| 0 <= k < ms@.len() && overlaps(#[trigger] ms@[k], x, y, width, height));
            return true;
        }
        i = i + 1;
    }
    false
}

/// What to do with the window's position on restore.
#[derive(Clone, Copy, Debug, PartialEq, Eq, Structural)]
pub enum PositionAction {
    /// No position was saved: leave it.
    Keep,
    /// Move the window to the saved position.
    MoveTo(i32, i32),
    /// The saved position is off every monitor: centre the window.
    Center,
}

/// What to do with the window on restore.
#[derive(Clone, Copy, Debug, PartialEq, Eq)]
pub struct RestorePlan {
    pub position: PositionAction,
    /// The size to set, when both dimensions were saved.
    pub size: Option<(u32, u32)>,
}

/// The position action for saved geometry `data`: with both coordinates
/// saved, move there if the rectangle (missing sizes taken as 940 by 700)
/// overlaps a monitor, else centre.
pub open spec fn spec_restore_position(data: WindowStateData, monitors: Option<Seq<MonitorRect>>) -> PositionAction {
    let w = match data.width { Some(w) => w, None => DEFAULT_WIDTH };
    let h = match data.height { Some(h) => h, None => DEFAULT_HEIGHT };
    match (data.x, data.y) {
        (Some(x), Some(y)) => if on_some_monitor(monitors, x, y, w, h) {
            PositionAction::MoveTo(x, y)
        } else {
            PositionAction::Center
        },
        _ => PositionAction::Keep,
    }
}

/// The size to set for saved geometry `data`.
pub open spec fn spec_restore_size(data: WindowStateData) -> Option<(u32, u32)> {
    match (data.width, data.height) {
        (Some(w), Some(h)) => Some((w, h)),
        _ => None,
    }
}

/// How to restore the window from saved geometry `data`.
pub fn restore_window_state(data: &WindowStateData, monitors: &Option<Vec<MonitorRect>>) -> (plan: RestorePlan)
    ensures
        plan.position == spec_restore_position(*data, monitors_view(monitors)),
        plan.size == spec_restore_size(*data),
{
    let w = match data.width { Some(w) => w, None => DEFAULT_WIDTH };
    let h = match data.height { Some(h) => h, None => DEFAULT_HEIGHT };
    let position = match (data.x, data.y) {
        (Some(x), Some(y)) => if window_rect_intersects_any_monitor(monitors, x, y, w, h) {
            PositionAction::MoveTo(x, y)
        } else {
            PositionAction::Center
        },
        _ => PositionAction::Keep,
    };
    let size = match (data.width, data.height) {
        (Some(w), Some(h)) => Some((w, h)),
        _ => None,
    };
    RestorePlan { position, size }
}

/// Saving the window's geometry and restoring it gives it back: the size
/// always, the position whenever the saved rectangle overlaps a monitor (or
/// no monitor could be listed), and otherwise the window is centred.
pub proof fn lemma_save_then_restore(pos: (i32, i32), size: (u32, u32), monitors: Option<Seq<MonitorRect>>)
    ensures ({
        let data = WindowStateData { x: Some(pos.0), y: Some(pos.1), width: Some(size.0), height: Some(size.1) };
        &&& spec_restore_size(data) == Some(size)
        &&& on_some_monitor(monitors, pos.0, pos.1, size.0, size.1)
                ==> spec_restore_position(data, monitors) == PositionAction::MoveTo(pos.0, pos.1)
        &&& !on_some_monitor(monitors, pos.0, pos.1, size.0, size.1)
                ==> spec_restore_position(data, monitors) == PositionAction::Center
    }),
{
}

/// In portable mode the window state is kept in
/// `<exe_dir>/Data/app/window_state.json`, whatever the per-user directories are.
pub proof fn lemma_portable_window_state_path(env: DirsEnv)
    requires
        env.portable,
        env.exe_dir is Ok,
    ensures
        spec_window_state_path(env)
            == Some(env.exe_dir->Ok_0@.push("Data"@).push("app"@).push(WINDOW_STATE@)),
{
}

/// A restore never moves the window to a position whose rectangle lies off
/// every listed monitor.
pub proof fn lemma_restore_stays_on_screen(data: WindowStateData, monitors: Option<Seq<MonitorRect>>)
    ensures
        spec_restore_position(data, monitors) matches PositionAction::MoveTo(x, y) ==> on_some_monitor(
            monitors,
            x,
            y,
            match data.width { Some(w) => w, None => DEFAULT_WIDTH },
            match data.height { Some(h) => h, None => DEFAULT_HEIGHT },
        ),
{
}

/// A window lying wholly inside a listed monitor is on screen, and a restore
/// moves it to its saved position: for any monitor `ms[i]` and a rectangle
/// (sizes above 0 and, like the monitor's, within `i32`) whose edges lie
/// within the monitor's edges.
pub proof fn lemma_inside_a_monitor_is_restored(
    ms: Seq<MonitorRect>,
    i: int,
    x: i32,
    y: i32,
    width: u32,
    height: u32,
)
    requires
        0 <= i < ms.len(),
        0 < width <= i32::MAX,
        0 < height <= i32::MAX,
        ms[i].width <= i32::MAX,
        ms[i].height <= i32::MAX,
        ms[i].x + ms[i].width <= i32::MAX,
        ms[i].y + ms[i].height <= i32::MAX,
        ms[i].x <= x,
        ms[i].y <= y,
        x + width <= ms[i].x + ms[i].width,
        y + height <= ms[i].y + ms[i].height,
    ensures
        on_some_monitor(Some(ms), x, y, width, height),
        spec_restore_position(
            WindowStateData { x: Some(x), y: Some(y), width: Some(width), height: Some(height) },
            Some(ms),
        ) == PositionAction::MoveTo(x, y),
{
    assert(overlaps(ms[i], x, y, width, height));
}

/// A window that lies apart from every listed monitor (entirely left of,
/// right of, above or below each of them) is off screen, and a restore
/// centres it.
pub proof fn lemma_apart_from_every_monitor_is_centred(
    ms: Seq<MonitorRect>,
    x: i32,
    y: i32,
    width: u32,
    height: u32,
)
    requires
        ms.len() > 0,
        forall|i: int| 0 <= i < ms.len() ==> {
            ||| x >= #[trigger] ms[i].x + ms[i].width
            ||| x + width <= ms[i].x
            ||| y >= ms[i].y + ms[i].height
            ||| y + height <= ms[i].y
        },
    ensures
        !on_some_monitor(Some(ms), x, y, width, height),
        spec_restore_position(
            WindowStateData { x: Some(x), y: Some(y), width: Some(width), height: Some(height) },
            Some(ms),
        ) == PositionAction::Center,
{
    assert forall|i: int| 0 <= i < ms.len() implies !overlaps(#[trigger] ms[i], x, y, width, height) by {
        let m = ms[i];
        assert(saturate_i32(m.x + wrap_i32(m.width)) <= m.x + m.width);
        assert(saturate_i32(m.y + wrap_i32(m.height)) <= m.y + m.height);
        assert(saturate_i32(x + wrap_i32(width)) <= x + width);
        assert(saturate_i32(y + wrap_i32(height)) <= y + height);
    }
}

} // verus!
