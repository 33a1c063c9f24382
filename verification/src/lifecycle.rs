//! The core's lifecycle: the core runs as a sidecar process or not at all.
//!
//! `CoreManager` holds the running mode and decides what each command does;
//! the caller launches and stops the process, clears the log buffer, saves
//! the configuration and reports the mode afterwards.

use vstd::prelude::*;
use crate::text::str_equal;
use vstd::string::StringExecFns;

verus! {

/// How the core is running.
#[derive(Clone, Copy, Debug, PartialEq, Eq, Structural)]
pub enum RunningMode {
    Sidecar,
    NotRunning,
}

/// The name the mode is reported under.
pub open spec fn spec_mode_name(mode: RunningMode) -> Seq<char> {
    match mode {
        RunningMode::Sidecar => "Sidecar"@,
        RunningMode::NotRunning => "NotRunning"@,
    }
}

impl RunningMode {
    /// The name the mode is reported under.
    pub fn name(&self) -> (s: String)
        ensures
            s@ == spec_mode_name(*self),
    {
        match self {
            RunningMode::Sidecar => String::from_str("Sidecar"),
            RunningMode::NotRunning => String::from_str("NotRunning"),
        }
    }
}

/// What `start_core` does.
#[derive(Clone, Copy, Debug, PartialEq, Eq, Structural)]
pub enum StartCore {
    /// The sidecar already runs: nothing to do.
    AlreadyRunning,
    /// Launch the sidecar, then report the mode.
    LaunchSidecar,
}

/// What `stop_core` does: stop the sidecar if one runs, then clear the
/// log buffer and report the mode.
#[derive(Clone, Copy, Debug, PartialEq, Eq, Structural)]
pub struct StopCore {
    pub stop_sidecar: bool,
}

/// What starting does from `mode`, and the mode afterwards.
pub open spec fn spec_start(mode: RunningMode) -> (StartCore, RunningMode) {
    if mode == RunningMode::Sidecar {
        (StartCore::AlreadyRunning, RunningMode::Sidecar)
    } else {
        (StartCore::LaunchSidecar, RunningMode::Sidecar)
    }
}

/// What stopping does from `mode`, and the mode afterwards.
pub open spec fn spec_stop(mode: RunningMode) -> (StopCore, RunningMode) {
    (StopCore { stop_sidecar: mode == RunningMode::Sidecar }, RunningMode::NotRunning)
}

/// `core` names one of the cores the user may choose.
pub open spec fn is_valid_core(core: Seq<char>) -> bool {
    core == "verge-mihomo"@ || core == "verge-mihomo-alpha"@
}

/// Checks the core chosen by `change_core` before the configuration is
/// touched: a core not in the list is refused with `Invalid clash core: <name>`.
pub fn validate_clash_core(core: &str) -> (r: Result<(), String>)
    ensures
        is_valid_core(core@) ==> r is Ok,
        !is_valid_core(core@) ==> (r matches Err(e) && e@ == "Invalid clash core: "@ + core@),
{
    if str_equal(core, "verge-mihomo") || str_equal(core, "verge-mihomo-alpha") {
        Ok(())
    } else {
        let mut e = String::from_str("Invalid clash core: ");
        e.append(core);
        Err(e)
    }
}

/// The core's running state.
pub struct CoreManager {
    running_mode: RunningMode,
}

impl CoreManager {
    /// A manager for a core that is not running.
    pub fn new() -> (m: CoreManager)
        ensures
            m.mode() == RunningMode::NotRunning,
    {
        CoreManager { running_mode: RunningMode::NotRunning }
    }

    /// The running mode.
    pub closed spec fn mode(&self) -> RunningMode {
        self.running_mode
    }

    pub fn get_running_mode(&self) -> (m: RunningMode)
        ensures
            m == self.mode(),
    {
        self.running_mode
    }

    pub fn set_running_mode(&mut self, mode: RunningMode)
        ensures
            final(self).mode() == mode,
    {
        self.running_mode = mode;
    }

    /// Marks the core as running as a sidecar, before it is launched.
    fn prepare_startup(&mut self)
        ensures
            final(self).mode() == RunningMode::Sidecar,
    {
        self.set_running_mode(RunningMode::Sidecar);
    }

    /// Starts the core unless the sidecar already runs.
    pub fn start_core(&mut self) -> (r: StartCore)
        ensures
            (r, final(self).mode()) == spec_start(old(self).mode()),
    {
        if self.running_mode == RunningMode::Sidecar {
            return StartCore::AlreadyRunning;
        }
        self.prepare_startup();
        StartCore::LaunchSidecar
    }

    /// Stops the core: the sidecar if one runs; afterwards none runs.
    pub fn stop_core(&mut self) -> (r: StopCore)
        ensures
            (r, final(self).mode()) == spec_stop(old(self).mode()),
    {
        let stop_sidecar = match self.running_mode {
            RunningMode::Sidecar => true,
            RunningMode::NotRunning => false,
        };
        self.set_running_mode(RunningMode::NotRunning);
        StopCore { stop_sidecar }
    }

    /// Restarts the core: stops it, then starts it.
    pub fn restart_core(&mut self) -> (r: (StopCore, StartCore))
        ensures
            r.0 == spec_stop(old(self).mode()).0,
            (r.1, final(self).mode()) == spec_start(spec_stop(old(self).mode()).1),
    {
        let stop = self.stop_core();
        let start = self.start_core();
        (stop, start)
    }

    /// The mode to report once a start or stop is done.
    pub fn after_core_process(&self) -> (s: String)
        ensures
            s@ == spec_mode_name(self.mode()),
    {
        self.running_mode.name()
    }
}

/// Starting is idempotent: once a start has run, starting again launches nothing.
pub proof fn lemma_start_is_idempotent(mode: RunningMode)
    ensures
        spec_start(spec_start(mode).1).0 == StartCore::AlreadyRunning,
        spec_start(spec_start(mode).1).1 == spec_start(mode).1,
{
}

/// After a stop nothing runs: a second stop stops no sidecar, and the next
/// start always launches one.
pub proof fn lemma_stop_then_start_launches(mode: RunningMode)
    ensures
        spec_stop(mode).1 == RunningMode::NotRunning,
        !spec_stop(spec_stop(mode).1).0.stop_sidecar,
        spec_start(spec_stop(mode).1).0 == StartCore::LaunchSidecar,
{
}

/// A restart always ends with a freshly launched sidecar, whatever ran before.
pub proof fn lemma_restart_launches(mode: RunningMode)
    ensures
        spec_start(spec_stop(mode).1) == (StartCore::LaunchSidecar, RunningMode::Sidecar),
{
}

} // verus!
