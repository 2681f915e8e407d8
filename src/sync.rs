use vstd::prelude::*;
use vstd::string::StringExecFns;
use crate::models::{app_version, AppConfig, AppSettings, Group, LaunchItem, APP_VERSION};
use crate::outside::now_rfc3339;

verus! {

/// What reading the archive file found.
pub enum ArchiveRead {
    /// No archive file exists yet.
    Absent,
    /// A file exists but does not hold a configuration; the parser's words.
    Malformed(String),
    /// A file exists and holds this configuration.
    Parsed(AppConfig),
}

/// What loading the archive comes to.
pub enum LoadPlan {
    /// Hand out this configuration as it was read.
    Use(AppConfig),
    /// Write this default configuration to the archive, then hand it out.
    WriteDefault(AppConfig),
    /// Report this failure; nothing is substituted.
    Fail(String),
}

impl LoadPlan {
    /// The configuration the plan hands out, if any.
    pub open spec fn config(self) -> Option<AppConfig> {
        match self {
            LoadPlan::Use(c) => Some(c),
            LoadPlan::WriteDefault(c) => Some(c),
            LoadPlan::Fail(_) => None,
        }
    }
}

/// The message that reports a malformed archive.
pub open spec fn parse_failure(detail: Seq<char>) -> Seq<char> {
    "Failed to parse config file: "@ + detail
}

/// How a load proceeds from what was read: an absent file gives the defaults
/// (to be written), a parsed one its own contents, a malformed one a failure.
pub open spec fn loads_as(read: ArchiveRead, plan: LoadPlan) -> bool {
    match read {
        ArchiveRead::Absent => plan matches LoadPlan::WriteDefault(c) && c.is_default_at(c.last_saved),
        ArchiveRead::Malformed(m) => plan matches LoadPlan::Fail(msg) && msg@ == parse_failure(m@),
        ArchiveRead::Parsed(c) => plan == LoadPlan::Use(c),
    }
}

/// `c` is the snapshot of these collections taken at `now`.
pub open spec fn is_snapshot(
    c: AppConfig,
    groups: Vec<Group>,
    items: Vec<LaunchItem>,
    settings: AppSettings,
    now: String,
) -> bool {
    &&& c.groups == groups
    &&& c.launch_items == items
    &&& c.settings == settings
    &&& c.version@ == app_version()
    &&& c.last_saved == now
}

/// Decides what loading the archive does with what was read.
pub fn plan_archive_load(read: ArchiveRead) -> (r: LoadPlan)
    ensures
        loads_as(read, r),
{
    match read {
        ArchiveRead::Absent => LoadPlan::WriteDefault(AppConfig::default()),
        ArchiveRead::Malformed(m) => {
            let msg = String::from_str("Failed to parse config file: ").concat(m.as_str());
            LoadPlan::Fail(msg)
        },
        ArchiveRead::Parsed(c) => LoadPlan::Use(c),
    }
}

/// Assembles the snapshot of the working collections, saved at `now`.
pub fn snapshot_at(
    groups: Vec<Group>,
    items: Vec<LaunchItem>,
    settings: AppSettings,
    now: String,
) -> (r: AppConfig)
    ensures
        is_snapshot(r, groups, items, settings, now),
{
    AppConfig {
        groups: groups,
        launch_items: items,
        settings: settings,
        version: String::from_str(APP_VERSION),
        last_saved: now,
    }
}

/// Assembles the snapshot of the working collections, saved now.
pub fn snapshot(groups: Vec<Group>, items: Vec<LaunchItem>, settings: AppSettings) -> (r: AppConfig)
    ensures
        is_snapshot(r, groups, items, settings, r.last_saved),
{
    snapshot_at(groups, items, settings, now_rfc3339())
}

/// The configuration that seeds the working collections at startup: the
/// loaded one, or the defaults when loading failed.
pub fn seed_config(loaded: Result<AppConfig, String>) -> (r: AppConfig)
    ensures
        loaded matches Ok(c) ==> r == c,
        loaded is Err ==> r.is_default_at(r.last_saved),
{
    match loaded {
        Ok(c) => c,
        Err(_) => AppConfig::default(),
    }
}

/// Loading an absent archive gives the defaults, and once they are written a
/// second load hands out that same configuration, with no defaults made again.
pub proof fn lemma_default_bootstrap(first: LoadPlan, second: LoadPlan)
    requires
        loads_as(ArchiveRead::Absent, first),
        loads_as(ArchiveRead::Parsed(first.config().unwrap()), second),
    ensures
        first.config() matches Some(c) && c.is_default_at(c.last_saved),
        second == LoadPlan::Use(first.config().unwrap()),
        second.config() == first.config(),
{
}

/// A malformed archive is reported as a failure, never replaced by defaults.
pub proof fn lemma_malformed_archive_fails(detail: String, plan: LoadPlan)
    requires
        loads_as(ArchiveRead::Malformed(detail), plan),
    ensures
        plan is Fail,
        plan.config() is None,
{
}

/// A snapshot read back from the archive is handed out unchanged: the working
/// collections it was taken from come back field for field.
pub proof fn lemma_snapshot_round_trip(
    c: AppConfig,
    groups: Vec<Group>,
    items: Vec<LaunchItem>,
    settings: AppSettings,
    now: String,
    plan: LoadPlan,
)
    requires
        is_snapshot(c, groups, items, settings, now),
        loads_as(ArchiveRead::Parsed(c), plan),
    ensures
        plan.config() == Some(c),
        plan.config().unwrap().groups == groups,
        plan.config().unwrap().launch_items == items,
        plan.config().unwrap().settings == settings,
        plan.config().unwrap().last_saved == now,
{
}

} // verus!
