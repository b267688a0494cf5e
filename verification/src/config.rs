//! Configuration records for the individual status-bar modules.  They are
//! filled in once at startup from the user's configuration store and stay
//! read-only for the life of the process.

use vstd::prelude::*;

verus! {

/// Settings of the clock-tracking module, all in minutes.
pub struct OrgClockConfig {
    /// Elapsed time after which break reminders begin.
    pub notify_time: u32,
    /// Grid spacing of repeated reminders once they have begun.
    pub notify_interval: u32,
    /// Further elapsed-time threshold carried in the configuration file;
    /// the scheduler itself does not consult it.
    pub alert_time: u32,
}

impl OrgClockConfig {
    /// A configuration the scheduler can run on: a zero reminder interval
    /// would mean dividing by zero every cycle, so it is rejected at
    /// startup instead.
    pub fn is_valid(&self) -> (ok: bool)
        ensures
            ok == (self.notify_interval > 0),
    {
        self.notify_interval > 0
    }
}

/// Settings of the weather module.
pub struct OpenWeatherMapConfig {
    /// Key used by the weather query.
    pub api_key: String,
}

/// Settings of the unfinished-projects module, ages in days.
pub struct UnfinishedProjectsConfig {
    /// Directories whose immediate subdirectories are candidate projects.
    pub project_dirs: Vec<String>,
    /// How deep to look for a file's age inside a project, if bounded.
    pub max_file_depth: Option<usize>,
    /// How deep to look for projects below a project directory, if bounded.
    pub max_project_depth: Option<usize>,
    /// Age above which a project counts as lingering at all.
    pub active_age: u64,
    /// Age above which the module shows a warning.
    pub warning_age: u64,
    /// Age above which the module shows a critical state.
    pub critical_age: u64,
}

} // verus!
