//! Job submission pipeline.
//!
//! A submission is a sequence of decisions with outside work between them: rows
//! to fetch, a search to run, files to write. `Submission::step` takes what the
//! last piece of work gave and says which piece comes next, until the request
//! is answered.
use vstd::prelude::*;

use crate::ids;
use crate::ids::Uuid;
use crate::number;
use crate::number::decimal_u64;
use crate::paths;
use crate::paths::join;
use crate::server::config::{ServerConfig, TierLimitsConfig};
use crate::server::error::{AppError, AppErrorModel};
use crate::shared::tier::UserTier;
use crate::shared::types;
use crate::shared::types::{
    BoundingBox, FlightPathError, JobRequest, ProcessingWorkflow, TimeRange, TimeRangeError,
};
use crate::text;
use crate::text::{concat2, concat3, concat5};
use crate::time;
use crate::time::{NaiveDate, Timestamp};

verus! {

/// The answer to an accepted submission.
#[derive(Debug)]
pub struct SubmitResponse {
    pub job_id: Uuid,
    pub work_dir: String,
    pub path: u32,
}

/// What the database knows of a prepaid code.
#[derive(Debug)]
pub struct CodeRow {
    pub granted_tier: String,
    pub expires_at: Option<Timestamp>,
    pub total_jobs: i32,
    pub used_jobs: i32,
}

// ---------------------------------------------------------------------------
// Decisions
// ---------------------------------------------------------------------------

/// The tier of the user whose row was looked up.
pub open spec fn tier_of_row(row: Option<Seq<char>>) -> Result<UserTier, AppErrorModel> {
    match row {
        None => Err(AppErrorModel::JobNotFound),
        Some(tier) => match UserTier::named(tier) {
            Some(tier) => Ok(tier),
            None => Err(AppErrorModel::Internal("unknown tier in DB: "@ + tier)),
        },
    }
}

/// The tier of the user whose row was looked up.
pub fn fetch_user_tier(row: Option<String>) -> (r: Result<UserTier, AppError>)
    ensures
        match (r, tier_of_row(text::opt_text(row))) {
            (Ok(tier), Ok(expected)) => tier == expected,
            (Err(error), Err(expected)) => error@ == expected,
            _ => false,
        },
{
    match row {
        None => Err(AppError::JobNotFound),
        Some(name) => match UserTier::from_str(name.as_str()) {
            Some(tier) => Ok(tier),
            None => Err(AppError::Internal(concat2("unknown tier in DB: ", name.as_str()))),
        },
    }
}

impl CodeRow {
    /// Whether the code can no longer be used at the time `now`.
    pub open spec fn expired(self, now: Timestamp) -> bool {
        self.expires_at is Some && (self.expires_at->0).precedes(now)
    }
}

/// The tier that a prepaid code grants at the time `now`: the code must exist,
/// not have expired and have uses left.
pub open spec fn tier_of_code(row: Option<CodeRow>, now: Timestamp) -> Result<
    UserTier,
    AppErrorModel,
> {
    match row {
        None => Err(AppErrorModel::InvalidPrepaidCode),
        Some(row) => if row.expired(now) {
            Err(AppErrorModel::InvalidPrepaidCode)
        } else if row.used_jobs >= row.total_jobs {
            Err(AppErrorModel::CodeExhausted)
        } else {
            match UserTier::named(row.granted_tier@) {
                Some(tier) => Ok(tier),
                None => Err(
                    AppErrorModel::Internal(
                        "unknown granted_tier in prepaid_codes: "@ + row.granted_tier@,
                    ),
                ),
            }
        },
    }
}

/// The tier that a prepaid code grants. Validates the code (existence, expiry,
/// remaining uses) but does not consume it: consumption is atomic with the
/// insertion of the job.
pub fn resolve_effective_tier(row: Option<CodeRow>, now: Timestamp) -> (r: Result<
    UserTier,
    AppError,
>)
    ensures
        match (r, tier_of_code(row, now)) {
            (Ok(tier), Ok(expected)) => tier == expected,
            (Err(error), Err(expected)) => error@ == expected,
            _ => false,
        },
{
    match row {
        None => Err(AppError::InvalidPrepaidCode),
        Some(row) => {
            if let Some(exp) = row.expires_at {
                if exp.before(&now) {
                    return Err(AppError::InvalidPrepaidCode);
                }
            }
            if row.used_jobs >= row.total_jobs {
                return Err(AppError::CodeExhausted);
            }
            match UserTier::from_str(row.granted_tier.as_str()) {
                Some(tier) => Ok(tier),
                None => Err(
                    AppError::Internal(
                        concat2(
                            "unknown granted_tier in prepaid_codes: ",
                            row.granted_tier.as_str(),
                        ),
                    ),
                ),
            }
        },
    }
}

/// What stands in the way of a request for an area and a number of days: the
/// area is looked at first.
pub open spec fn size_error(limits: TierLimitsConfig, aoi_km2: u64, days: u64) -> Option<
    AppErrorModel,
> {
    if !TierLimitsConfig::allows(limits.max_aoi_km2, aoi_km2) {
        Some(
            AppErrorModel::TierLimitExceeded(
                "AOI area "@ + number::decimal(aoi_km2 as int) + " km² exceeds the "@
                    + number::decimal(limits.max_aoi_km2 as int) + " km² limit for your tier"@,
            ),
        )
    } else if !TierLimitsConfig::allows(limits.max_time_range_days, days) {
        Some(
            AppErrorModel::TierLimitExceeded(
                "time range "@ + number::decimal(days as int) + " days exceeds the "@
                    + number::decimal(limits.max_time_range_days as int)
                    + "-day limit for your tier"@,
            ),
        )
    } else {
        None
    }
}

/// Enforces the limits on the area and on the time range.
pub fn check_size(limits: &TierLimitsConfig, aoi_km2: u64, days: u64) -> (r: Result<(), AppError>)
    ensures
        match r {
            Ok(()) => size_error(*limits, aoi_km2, days) is None,
            Err(error) => size_error(*limits, aoi_km2, days) == Some(error@),
        },
{
    if !TierLimitsConfig::within_limit(limits.max_aoi_km2, aoi_km2) {
        return Err(
            AppError::TierLimitExceeded(
                concat5(
                    "AOI area ",
                    decimal_u64(aoi_km2).as_str(),
                    " km² exceeds the ",
                    decimal_u64(limits.max_aoi_km2).as_str(),
                    " km² limit for your tier",
                ),
            ),
        );
    }
    if !TierLimitsConfig::within_limit(limits.max_time_range_days, days) {
        return Err(
            AppError::TierLimitExceeded(
                concat5(
                    "time range ",
                    decimal_u64(days).as_str(),
                    " days exceeds the ",
                    decimal_u64(limits.max_time_range_days).as_str(),
                    "-day limit for your tier",
                ),
            ),
        );
    }
    Ok(())
}

/// What stands in the way of one more job this month: with it, no more jobs may
/// have been submitted than the tier allows for a month.
pub open spec fn month_error(limits: TierLimitsConfig, jobs_this_month: u64) -> Option<
    AppErrorModel,
> {
    if limits.max_jobs_per_month == 0 || jobs_this_month + 1 <= limits.max_jobs_per_month {
        None
    } else {
        Some(
            AppErrorModel::TierLimitExceeded(
                "monthly job limit of "@ + number::decimal(limits.max_jobs_per_month as int)
                    + " reached for your tier"@,
            ),
        )
    }
}

/// Enforces the limit on the jobs of a month.
pub fn check_month(limits: &TierLimitsConfig, jobs_this_month: u64) -> (r: Result<(), AppError>)
    ensures
        match r {
            Ok(()) => month_error(*limits, jobs_this_month) is None,
            Err(error) => month_error(*limits, jobs_this_month) == Some(error@),
        },
{
    if jobs_this_month < u64::MAX && TierLimitsConfig::within_limit(
        limits.max_jobs_per_month,
        jobs_this_month + 1,
    ) || limits.max_jobs_per_month == 0 {
        Ok(())
    } else {
        Err(
            AppError::TierLimitExceeded(
                concat3(
                    "monthly job limit of ",
                    decimal_u64(limits.max_jobs_per_month).as_str(),
                    " reached for your tier",
                ),
            ),
        )
    }
}

/// A job that is let through keeps the jobs of the month within the limit.
pub proof fn months_stay_within_limit(limits: TierLimitsConfig, jobs_this_month: u64)
    requires
        month_error(limits, jobs_this_month) is None,
        jobs_this_month < u64::MAX,
    ensures
        TierLimitsConfig::allows(limits.max_jobs_per_month, (jobs_this_month + 1) as u64),
{
}

/// The error that answers a search without a path.
pub open spec fn search_error(error: FlightPathError) -> AppErrorModel {
    match error {
        FlightPathError::InsufficientMaterial => AppErrorModel::NoImagesFound,
        FlightPathError::InvalidPath => AppErrorModel::FlightPath(error),
    }
}

/// The error that answers a search without a path.
pub fn map_search_error(error: FlightPathError) -> (r: AppError)
    ensures
        r@ == search_error(error),
{
    match error {
        FlightPathError::InsufficientMaterial => AppError::NoImagesFound,
        FlightPathError::InvalidPath => AppError::FlightPath(error),
    }
}

/// When the month began that the jobs are counted in, where it is `now`: a job
/// counts that was created no earlier. There is none where `now` lies outside
/// the calendar.
pub fn count_jobs_this_month(now: &Timestamp) -> (r: Option<Timestamp>)
    ensures
        match r {
            Some(start) => {
                &&& time::month_start_of(now.secs, now.nanos) == Some(start.secs)
                &&& start.nanos == 0
                &&& start.secs % 86400 == 0
                &&& !now.precedes(start)
                &&& now.secs < start.secs + 31 * 86400
            },
            None => time::month_start_of(now.secs, now.nanos) is None,
        },
{
    time::month_start(now)
}

/// Different jobs have different working directories.
pub proof fn work_dirs_differ(jobs_root: Seq<char>, a: Uuid, b: Uuid)
    requires
        paths::joined_path(jobs_root, a.text()) == paths::joined_path(jobs_root, b.text()),
    ensures
        a == b,
{
    ids::uuid_text_is_a_name(a);
    ids::uuid_text_is_a_name(b);
    ids::uuid_text_len(a);
    ids::uuid_text_len(b);
    let x = paths::joined_path(jobs_root, a.text());
    let y = paths::joined_path(jobs_root, b.text());
    assert(a.text()[0] != '/') by {
        assert(a.text().contains(a.text()[0]));
    }
    assert(b.text()[0] != '/') by {
        assert(b.text().contains(b.text()[0]));
    }
    assert(x.skip(x.len() - 36) =~= a.text());
    assert(y.skip(y.len() - 36) =~= b.text());
    ids::uuid_texts_differ(a, b);
}

// ---------------------------------------------------------------------------
// Parameters
// ---------------------------------------------------------------------------

/// The processing parameters of a job, with the defaults filled in.
#[derive(Debug, Clone, Copy, PartialEq, Eq, Structural)]
pub struct Parameters {
    pub workflow: ProcessingWorkflow,
    pub range_looks: u32,
    pub azimuth_looks: u32,
    pub connections: u8,
}

/// The parameters that a request asks for, with what it leaves open taken from
/// the configuration.
pub open spec fn parameters_of(req: JobRequest, config: ServerConfig) -> Parameters {
    Parameters {
        workflow: match req.workflow {
            Some(workflow) => workflow,
            None => ProcessingWorkflow::Sbas,
        },
        range_looks: match req.range_looks {
            Some(n) => n,
            None => config.defaults.range_looks,
        },
        azimuth_looks: match req.azimuth_looks {
            Some(n) => n,
            None => config.defaults.azimuth_looks,
        },
        connections: match req.connections {
            Some(n) => n,
            None => config.defaults.connections,
        },
    }
}

/// Resolves the processing parameters (applies config defaults).
pub fn parameters(req: &JobRequest, config: &ServerConfig) -> (r: Parameters)
    ensures
        r == parameters_of(*req, *config),
{
    Parameters {
        workflow: match req.workflow {
            Some(workflow) => workflow,
            None => ProcessingWorkflow::default(),
        },
        range_looks: match req.range_looks {
            Some(n) => n,
            None => config.defaults.range_looks,
        },
        azimuth_looks: match req.azimuth_looks {
            Some(n) => n,
            None => config.defaults.azimuth_looks,
        },
        connections: match req.connections {
            Some(n) => n,
            None => config.defaults.connections,
        },
    }
}

/// What a request states is what the job gets, whatever the configuration; only
/// what it leaves open comes from the configuration, and a workflow that it
/// leaves open is SBAS.
pub proof fn stated_parameters_win(req: JobRequest, config: ServerConfig)
    ensures
        ({
            let found = parameters_of(req, config);
            &&& req.workflow matches Some(workflow) ==> found.workflow == workflow
            &&& req.workflow is None ==> found.workflow == ProcessingWorkflow::Sbas
            &&& req.range_looks matches Some(n) ==> found.range_looks == n
            &&& req.range_looks is None ==> found.range_looks == config.defaults.range_looks
            &&& req.azimuth_looks matches Some(n) ==> found.azimuth_looks == n
            &&& req.azimuth_looks is None ==> found.azimuth_looks == config.defaults.azimuth_looks
            &&& req.connections matches Some(n) ==> found.connections == n
            &&& req.connections is None ==> found.connections == config.defaults.connections
        }),
{
}

/// A request is let through exactly where its area fits the limit on areas and
/// its days fit the limit on time ranges; a limit of 0 lets everything through.
/// The two limits do not bear on each other.
pub proof fn sizes_are_held_against_their_own_limit(
    limits: TierLimitsConfig,
    aoi_km2: u64,
    days: u64,
)
    ensures
        size_error(limits, aoi_km2, days) is None <==> (limits.max_aoi_km2 == 0 || aoi_km2
            <= limits.max_aoi_km2) && (limits.max_time_range_days == 0 || days
            <= limits.max_time_range_days),
        size_error(limits, aoi_km2, days) matches Some(error) ==> error is TierLimitExceeded,
{
}

/// A user who submits job after job gets exactly as many through in a month as
/// their tier allows, and without end where that is 0: after `count` jobs the
/// next one is let through where and only where `count` is below the limit.
pub proof fn months_have_as_many_jobs_as_allowed(limits: TierLimitsConfig, count: u64)
    ensures
        month_error(limits, count) is None <==> limits.max_jobs_per_month == 0 || count
            < limits.max_jobs_per_month,
        month_error(limits, count) matches Some(error) ==> error is TierLimitExceeded,
{
}

/// A prepaid code grants its tier as long as it has not expired and has uses
/// left, and nothing else does.
pub proof fn codes_grant_their_tier(row: CodeRow, now: Timestamp)
    ensures
        tier_of_code(Some(row), now) matches Ok(tier) ==> tier.name() == row.granted_tier@,
        tier_of_code(Some(row), now) is Ok <==> row.used_jobs < row.total_jobs && (
        row.expires_at matches Some(end) ==> now.secs < end.secs || (now.secs == end.secs
            && now.nanos <= end.nanos)) && UserTier::named(row.granted_tier@) is Some,
        tier_of_code(None, now) is Err,
{
}

// ---------------------------------------------------------------------------
// The pipeline
// ---------------------------------------------------------------------------

/// What the submission waits for.
#[derive(Debug)]
pub enum Phase {
    /// The row of the user.
    Tier,
    /// The row of the prepaid code.
    Code,
    /// The number of jobs of this month.
    Count { tier: UserTier },
    /// The search for images.
    Search { tier: UserTier },
    /// The job directory.
    Directory { tier: UserTier, job_id: Uuid, path: u32, work_dir: String },
    /// The files of the job.
    Files { tier: UserTier, job_id: Uuid, path: u32, work_dir: String },
    /// The insertion of the job.
    Insert { tier: UserTier, job_id: Uuid, path: u32, work_dir: String },
    /// Nothing: the request is answered.
    Answered,
}

/// What a `Phase` says.
pub enum PhaseModel {
    Tier,
    Code,
    Count { tier: UserTier },
    Search { tier: UserTier },
    Directory { tier: UserTier, job_id: Uuid, path: u32, work_dir: Seq<char> },
    Files { tier: UserTier, job_id: Uuid, path: u32, work_dir: Seq<char> },
    Insert { tier: UserTier, job_id: Uuid, path: u32, work_dir: Seq<char> },
    Answered,
}

impl View for Phase {
    type V = PhaseModel;

    open spec fn view(&self) -> PhaseModel {
        match *self {
            Phase::Tier => PhaseModel::Tier,
            Phase::Code => PhaseModel::Code,
            Phase::Count { tier } => PhaseModel::Count { tier },
            Phase::Search { tier } => PhaseModel::Search { tier },
            Phase::Directory { tier, job_id, path, work_dir } => PhaseModel::Directory {
                tier,
                job_id,
                path,
                work_dir: work_dir@,
            },
            Phase::Files { tier, job_id, path, work_dir } => PhaseModel::Files {
                tier,
                job_id,
                path,
                work_dir: work_dir@,
            },
            Phase::Insert { tier, job_id, path, work_dir } => PhaseModel::Insert {
                tier,
                job_id,
                path,
                work_dir: work_dir@,
            },
            Phase::Answered => PhaseModel::Answered,
        }
    }
}

/// What a piece of outside work gave.
#[derive(Debug)]
pub enum Event {
    /// The tier of the user, if there is such a user.
    TierRow(Option<String>),
    /// The prepaid code, if there is such a code, looked at at the time `now`.
    CodeRow { row: Option<CodeRow>, now: Timestamp },
    /// The number of jobs that the user submitted this month.
    JobCount(u64),
    /// The path that the search chose; `job_id` is a fresh identifier.
    Searched { result: Result<u32, FlightPathError>, job_id: Uuid },
    /// The job directory is there.
    DirectoryCreated,
    /// The files of the job are written.
    FilesWritten,
    /// The job is inserted; with a prepaid code, `uses` is how many of its uses
    /// were taken.
    Inserted { uses: u64 },
    /// The work failed.
    Failed(AppError),
}

/// The outside work to do next.
#[derive(Debug)]
pub enum Action {
    FetchTier,
    FetchCode(Uuid),
    CountJobs,
    Search,
    CreateDirectory(String),
    WriteFiles { work_dir: String, parameters: Parameters },
    InsertJob {
        job_id: Uuid,
        workflow: &'static str,
        tier: &'static str,
        work_dir: String,
        code: Option<Uuid>,
    },
    Respond(SubmitResponse),
    Fail(AppError),
}

/// What an `Action` says.
#[allow(inconsistent_fields)]
pub enum ActionModel {
    FetchTier,
    FetchCode(Uuid),
    CountJobs,
    Search,
    CreateDirectory(Seq<char>),
    WriteFiles { work_dir: Seq<char>, parameters: Parameters },
    InsertJob {
        job_id: Uuid,
        workflow: Seq<char>,
        tier: Seq<char>,
        work_dir: Seq<char>,
        code: Option<Uuid>,
    },
    Respond { job_id: Uuid, work_dir: Seq<char>, path: u32 },
    Fail(AppErrorModel),
}

impl View for Action {
    type V = ActionModel;

    open spec fn view(&self) -> ActionModel {
        match *self {
            Action::FetchTier => ActionModel::FetchTier,
            Action::FetchCode(code) => ActionModel::FetchCode(code),
            Action::CountJobs => ActionModel::CountJobs,
            Action::Search => ActionModel::Search,
            Action::CreateDirectory(dir) => ActionModel::CreateDirectory(dir@),
            Action::WriteFiles { work_dir, parameters } => ActionModel::WriteFiles {
                work_dir: work_dir@,
                parameters,
            },
            Action::InsertJob { job_id, workflow, tier, work_dir, code } => {
                ActionModel::InsertJob {
                    job_id,
                    workflow: workflow@,
                    tier: tier@,
                    work_dir: work_dir@,
                    code,
                }
            },
            Action::Respond(response) => ActionModel::Respond {
                job_id: response.job_id,
                work_dir: response.work_dir@,
                path: response.path,
            },
            Action::Fail(error) => ActionModel::Fail(error@),
        }
    }
}

/// A submission on its way.
#[derive(Debug)]
pub struct Submission {
    pub req: JobRequest,
    /// The requested time range.
    pub time: TimeRange,
    /// The area of the requested bounds, in whole km².
    pub aoi_km2: u64,
    pub phase: Phase,
}

/// A failed submission.
pub open spec fn failed(error: AppErrorModel) -> (PhaseModel, ActionModel) {
    (PhaseModel::Answered, ActionModel::Fail(error))
}

impl Submission {
    /// Whether the request has been validated.
    pub open spec fn wf(self) -> bool {
        self.time.start.days <= self.time.end.days
    }

    /// Whether the event is what the submission waits for.
    pub open spec fn expects(self, event: Event) -> bool {
        match event {
            Event::TierRow(_) => self.phase is Tier,
            Event::CodeRow { .. } => self.phase is Code,
            Event::JobCount(_) => self.phase is Count,
            Event::Searched { .. } => self.phase is Search,
            Event::DirectoryCreated => self.phase is Directory,
            Event::FilesWritten => self.phase is Files,
            Event::Inserted { .. } => self.phase is Insert,
            Event::Failed(_) => true,
        }
    }

    /// The number of days that the request spans.
    pub open spec fn days(self) -> u64 {
        (self.time.end.days - self.time.start.days) as u64
    }

    /// What follows once the tier that applies is known: the request must fit
    /// the limits of the tier.
    pub open spec fn after_tier(self, tier: UserTier, config: ServerConfig) -> (
        PhaseModel,
        ActionModel,
    ) {
        match config.user_tiers.limits(tier.name()) {
            None => failed(AppErrorModel::Internal("unknown effective tier"@)),
            Some(limits) => match size_error(limits, self.aoi_km2, self.days()) {
                Some(error) => failed(error),
                None => (PhaseModel::Count { tier }, ActionModel::CountJobs),
            },
        }
    }

    /// What follows an event.
    pub open spec fn after(self, event: Event, config: ServerConfig) -> (PhaseModel, ActionModel) {
        match (event, self.phase@) {
            (Event::Failed(error), _) => failed(error@),
            (Event::TierRow(row), _) => match tier_of_row(text::opt_text(row)) {
                Err(error) => failed(error),
                Ok(tier) => match self.req.prepaid_code {
                    Some(code) => (PhaseModel::Code, ActionModel::FetchCode(code)),
                    None => self.after_tier(tier, config),
                },
            },
            (Event::CodeRow { row, now }, _) => match tier_of_code(row, now) {
                Err(error) => failed(error),
                Ok(tier) => self.after_tier(tier, config),
            },
            (Event::JobCount(count), PhaseModel::Count { tier }) => {
                match config.user_tiers.limits(tier.name()) {
                    None => failed(AppErrorModel::Internal("unknown effective tier"@)),
                    Some(limits) => match month_error(limits, count) {
                        Some(error) => failed(error),
                        None => (PhaseModel::Search { tier }, ActionModel::Search),
                    },
                }
            },
            (Event::Searched { result, job_id }, PhaseModel::Search { tier }) => match result {
                Err(error) => failed(search_error(error)),
                Ok(path) => {
                    let work_dir = paths::joined_path(config.paths.jobs_root@, job_id.text());
                    (
                        PhaseModel::Directory { tier, job_id, path, work_dir },
                        ActionModel::CreateDirectory(work_dir),
                    )
                },
            },
            (
                Event::DirectoryCreated,
                PhaseModel::Directory { tier, job_id, path, work_dir },
            ) => (
                PhaseModel::Files { tier, job_id, path, work_dir },
                ActionModel::WriteFiles {
                    work_dir,
                    parameters: parameters_of(self.req, config),
                },
            ),
            (Event::FilesWritten, PhaseModel::Files { tier, job_id, path, work_dir }) => (
                PhaseModel::Insert { tier, job_id, path, work_dir },
                ActionModel::InsertJob {
                    job_id,
                    workflow: parameters_of(self.req, config).workflow.name(),
                    tier: tier.name(),
                    work_dir,
                    code: self.req.prepaid_code,
                },
            ),
            (Event::Inserted { uses }, PhaseModel::Insert { job_id, path, work_dir, .. }) => {
                if self.req.prepaid_code is Some && uses == 0 {
                    failed(AppErrorModel::CodeExhausted)
                } else {
                    (PhaseModel::Answered, ActionModel::Respond { job_id, work_dir, path })
                }
            },
            _ => (self.phase@, ActionModel::FetchTier),
        }
    }

    /// The tier that the submission goes by, once it is known.
    pub open spec fn tier(self) -> Option<UserTier> {
        match self.phase@ {
            PhaseModel::Count { tier } => Some(tier),
            PhaseModel::Search { tier } => Some(tier),
            PhaseModel::Directory { tier, .. } => Some(tier),
            PhaseModel::Files { tier, .. } => Some(tier),
            PhaseModel::Insert { tier, .. } => Some(tier),
            _ => None,
        }
    }

    /// Whether the request fits the limits of the tier that it goes by, once
    /// that is known.
    pub open spec fn admitted(self, config: ServerConfig) -> bool {
        match self.tier() {
            Some(tier) => {
                let limits = config.user_tiers.limits(tier.name());
                limits is Some && size_error(limits->0, self.aoi_km2, self.days()) is None
            },
            None => true,
        }
    }

    /// No step takes a submission past the limits of its tier: a job is
    /// searched for, written and inserted only where the request fits them.
    pub proof fn steps_keep_the_limits(
        before: Submission,
        after: Submission,
        event: Event,
        action: ActionModel,
        config: ServerConfig,
    )
        requires
            before.admitted(config),
            before.expects(event),
            after.req == before.req,
            after.time == before.time,
            after.aoi_km2 == before.aoi_km2,
            (after.phase@, action) == before.after(event, config),
        ensures
            after.admitted(config),
            action is InsertJob ==> after.tier() is Some,
    {
    }

    /// Validates spatial and temporal bounds, on the day `today`. `aoi_km2` is
    /// the area that the bounds enclose.
    pub fn begin(req: JobRequest, aoi_km2: u64, today: NaiveDate) -> (r: Result<Self, AppError>)
        ensures
            ({
                let bad = types::bounds_error(req.north@, req.south@, req.east@, req.west@);
                let late = req.start.days > today.days || req.end.days > today.days;
                match r {
                    Ok(submission) => {
                        &&& bad is None
                        &&& !late
                        &&& req.start.days <= req.end.days
                        &&& submission.req == req
                        &&& submission.time == (TimeRange { start: req.start, end: req.end })
                        &&& submission.aoi_km2 == aoi_km2
                        &&& submission.phase is Tier
                        &&& submission.wf()
                    },
                    Err(error) => error@ == match bad {
                        Some(bounds) => AppErrorModel::InvalidBoundingBox(bounds),
                        None => if late {
                            AppErrorModel::InvalidTimeRange(TimeRangeError::FutureDate)
                        } else {
                            AppErrorModel::InvalidTimeRange(TimeRangeError::InvertedBounds)
                        },
                    } && (bad is Some || late || req.start.days > req.end.days),
                }
            }),
    {
        match BoundingBox::from_bounds(
            req.north.duplicate(),
            req.south.duplicate(),
            req.east.duplicate(),
            req.west.duplicate(),
        ) {
            Ok(_) => {},
            Err(error) => {
                return Err(AppError::InvalidBoundingBox(error));
            },
        }
        match TimeRange::from_bounds(req.start, req.end, today) {
            Ok(time) => Ok(Submission { req, time, aoi_km2, phase: Phase::Tier }),
            Err(error) => Err(AppError::InvalidTimeRange(error)),
        }
    }

    fn fail(&mut self, error: AppError) -> (r: Action)
        ensures
            final(self).req == old(self).req,
            final(self).time == old(self).time,
            final(self).aoi_km2 == old(self).aoi_km2,
            (final(self).phase@, r@) == failed(error@),
    {
        self.phase = Phase::Answered;
        Action::Fail(error)
    }

    fn with_tier(&mut self, tier: UserTier, config: &ServerConfig) -> (r: Action)
        requires
            old(self).wf(),
        ensures
            final(self).req == old(self).req,
            final(self).time == old(self).time,
            final(self).aoi_km2 == old(self).aoi_km2,
            (final(self).phase@, r@) == old(self).after_tier(tier, *config),
    {
        match config.user_tiers.for_tier(tier.as_str()) {
            None => self.fail(AppError::Internal("unknown effective tier".to_owned())),
            Some(limits) => {
                let days: u64 = self.time.duration_days() as u64;
                match check_size(limits, self.aoi_km2, days) {
                    Err(error) => self.fail(error),
                    Ok(()) => {
                        self.phase = Phase::Count { tier };
                        Action::CountJobs
                    },
                }
            },
        }
    }

    /// Takes what the last piece of outside work gave and says what comes next.
    pub fn step(&mut self, event: Event, config: &ServerConfig) -> (r: Action)
        requires
            old(self).wf(),
            old(self).expects(event),
        ensures
            final(self).wf(),
            final(self).req == old(self).req,
            final(self).time == old(self).time,
            final(self).aoi_km2 == old(self).aoi_km2,
            (final(self).phase@, r@) == old(self).after(event, *config),
    {
        match event {
            Event::Failed(error) => self.fail(error),
            Event::TierRow(row) => match fetch_user_tier(row) {
                Err(error) => self.fail(error),
                Ok(tier) => match self.req.prepaid_code {
                    Some(code) => {
                        self.phase = Phase::Code;
                        Action::FetchCode(code)
                    },
                    None => self.with_tier(tier, config),
                },
            },
            Event::CodeRow { row, now } => match resolve_effective_tier(row, now) {
                Err(error) => self.fail(error),
                Ok(tier) => self.with_tier(tier, config),
            },
            Event::JobCount(count) => {
                let tier = match &self.phase {
                    Phase::Count { tier } => *tier,
                    _ => UserTier::Demo,
                };
                match config.user_tiers.for_tier(tier.as_str()) {
                    None => self.fail(AppError::Internal("unknown effective tier".to_owned())),
                    Some(limits) => match check_month(limits, count) {
                        Err(error) => self.fail(error),
                        Ok(()) => {
                            self.phase = Phase::Search { tier };
                            Action::Search
                        },
                    },
                }
            },
            Event::Searched { result, job_id } => {
                let tier = match &self.phase {
                    Phase::Search { tier } => *tier,
                    _ => UserTier::Demo,
                };
                match result {
                    Err(error) => self.fail(map_search_error(error)),
                    Ok(path) => {
                        let work_dir = join(
                            config.paths.jobs_root.as_str(),
                            job_id.to_text().as_str(),
                        );
                        self.phase = Phase::Directory {
                            tier,
                            job_id,
                            path,
                            work_dir: work_dir.clone(),
                        };
                        Action::CreateDirectory(work_dir)
                    },
                }
            },
            Event::DirectoryCreated => {
                let mut phase = Phase::Answered;
                std::mem::swap(&mut phase, &mut self.phase);
                match phase {
                    Phase::Directory { tier, job_id, path, work_dir } => {
                        let parameters = parameters(&self.req, config);
                        self.phase = Phase::Files { tier, job_id, path, work_dir: work_dir.clone() };
                        Action::WriteFiles { work_dir, parameters }
                    },
                    _ => Action::FetchTier,
                }
            },
            Event::FilesWritten => {
                let mut phase = Phase::Answered;
                std::mem::swap(&mut phase, &mut self.phase);
                match phase {
                    Phase::Files { tier, job_id, path, work_dir } => {
                        let parameters = parameters(&self.req, config);
                        self.phase = Phase::Insert { tier, job_id, path, work_dir: work_dir.clone() };
                        Action::InsertJob {
                            job_id,
                            workflow: parameters.workflow.as_db_str(),
                            tier: tier.as_str(),
                            work_dir,
                            code: self.req.prepaid_code,
                        }
                    },
                    _ => Action::FetchTier,
                }
            },
            Event::Inserted { uses } => {
                let mut phase = Phase::Answered;
                std::mem::swap(&mut phase, &mut self.phase);
                match phase {
                    Phase::Insert { job_id, path, work_dir, .. } => {
                        if self.req.prepaid_code.is_some() && uses == 0 {
                            Action::Fail(AppError::CodeExhausted)
                        } else {
                            Action::Respond(SubmitResponse { job_id, work_dir, path })
                        }
                    },
                    _ => Action::FetchTier,
                }
            },
        }
    }
}

// ---------------------------------------------------------------------------
// Laws of the pipeline
// ---------------------------------------------------------------------------

/// The limits that hold for a tier.
pub open spec fn tier_limits(config: ServerConfig, tier: UserTier) -> TierLimitsConfig {
    match tier {
        UserTier::Demo => config.user_tiers.demo,
        UserTier::Free => config.user_tiers.free,
        UserTier::Pro => config.user_tiers.pro,
    }
}

/// A submission goes by the tier of the user, or by that of the prepaid code where
/// it has one; and it goes on only where area and days fit the limits of that tier.
pub proof fn submissions_go_by_their_tier(before: Submission, event: Event, config: ServerConfig)
    requires
        before.wf(),
        before.expects(event),
        event is TierRow || event is CodeRow,
        before.after(event, config).0 is Count,
    ensures
        ({
            let (phase, action) = before.after(event, config);
            let tier = phase->Count_tier;
            let limits = tier_limits(config, tier);
            &&& action is CountJobs
            &&& limits.max_aoi_km2 == 0 || before.aoi_km2 <= limits.max_aoi_km2
            &&& limits.max_time_range_days == 0 || before.time.end.days - before.time.start.days
                <= limits.max_time_range_days
            &&& match event {
                Event::TierRow(row) => before.req.prepaid_code is None && row is Some
                    && tier.name() == row->0@,
                Event::CodeRow { row, now } => row is Some && tier.name() == (
                row->0).granted_tier@ && (row->0).used_jobs < (row->0).total_jobs,
                _ => false,
            }
        }),
{
    let tier = before.after(event, config).0->Count_tier;
    reveal_strlit("demo");
    reveal_strlit("free");
    reveal_strlit("pro");
    assert("demo"@.len() == 4);
    assert("free"@.len() == 4);
    assert("pro"@.len() == 3);
    assert("demo"@[0] != "free"@[0]);
    assert(config.user_tiers.limits(tier.name()) == Some(tier_limits(config, tier)));
}

/// Once its tier is known a submission keeps it, as it keeps the identifier, the
/// path and the directory of its job: what is searched, written, inserted and
/// answered belongs to one job, in the directory of that name below the jobs root,
/// with the workflow that was asked for and the code that was given. The search
/// comes only where the month has room for the job.
pub proof fn submissions_stay_one_job(before: Submission, event: Event, config: ServerConfig)
    requires
        before.expects(event),
        before.tier() is Some,
    ensures
        ({
            let (phase, action) = before.after(event, config);
            let tier = before.tier()->0;
            match action {
                ActionModel::Search => {
                    let limits = tier_limits(config, tier);
                    &&& phase == PhaseModel::Search { tier }
                    &&& event matches Event::JobCount(count) && (limits.max_jobs_per_month == 0
                        || count < limits.max_jobs_per_month)
                },
                ActionModel::CreateDirectory(dir) => match event {
                    Event::Searched { result, job_id } => {
                        &&& result is Ok
                        &&& dir == paths::joined_path(config.paths.jobs_root@, job_id.text())
                        &&& phase == (PhaseModel::Directory {
                            tier,
                            job_id,
                            path: result->Ok_0,
                            work_dir: dir,
                        })
                    },
                    _ => false,
                },
                ActionModel::WriteFiles { work_dir, parameters } => match before.phase@ {
                    PhaseModel::Directory { job_id, path, work_dir: dir, .. } => {
                        &&& work_dir == dir
                        &&& parameters == parameters_of(before.req, config)
                        &&& phase == (PhaseModel::Files { tier, job_id, path, work_dir: dir })
                    },
                    _ => false,
                },
                ActionModel::InsertJob { job_id, workflow, tier: stored, work_dir, code } => {
                    match before.phase@ {
                        PhaseModel::Files { job_id: id, path, work_dir: dir, .. } => {
                            &&& job_id == id
                            &&& work_dir == dir
                            &&& stored == tier.name()
                            &&& code == before.req.prepaid_code
                            &&& workflow == match before.req.workflow {
                                Some(ProcessingWorkflow::PsInsar) => "ps_insar"@,
                                Some(ProcessingWorkflow::Timeseries) => "timeseries"@,
                                _ => "sbas"@,
                            }
                            &&& phase == (PhaseModel::Insert { tier, job_id, path, work_dir })
                        },
                        _ => false,
                    }
                },
                ActionModel::Respond { job_id, work_dir, path } => {
                    &&& phase is Answered
                    &&& event matches Event::Inserted { uses } && (before.req.prepaid_code is Some
                        ==> uses > 0)
                    &&& match before.phase@ {
                        PhaseModel::Insert { job_id: id, path: p, work_dir: dir, .. } => job_id
                            == id && path == p && work_dir == dir,
                        _ => false,
                    }
                },
                ActionModel::Fail(_) => phase is Answered,
                _ => false,
            }
        }),
{
    let tier = before.tier()->0;
    reveal_strlit("demo");
    reveal_strlit("free");
    reveal_strlit("pro");
    assert("demo"@.len() == 4);
    assert("free"@.len() == 4);
    assert("pro"@.len() == 3);
    assert("demo"@[0] != "free"@[0]);
    assert(config.user_tiers.limits(tier.name()) == Some(tier_limits(config, tier)));
}

/// A user has exactly the tier that their row names; a user without a row is not
/// found, and a name that is none of the tiers' is a fault inside the server.
pub proof fn users_have_the_tier_of_their_row(row: Option<Seq<char>>, tier: UserTier)
    ensures
        tier_of_row(row) == Ok::<UserTier, AppErrorModel>(tier) <==> row == Some(tier.name()),
        row is None ==> tier_of_row(row) == Err::<UserTier, AppErrorModel>(
            AppErrorModel::JobNotFound,
        ),
        row is Some && tier_of_row(row) is Err ==> tier_of_row(row)->Err_0.status() == 500,
{
    UserTier::named_is_unique(tier);
}

/// A search that finds no images says so; one that finds images, but not enough of
/// them on the path that was asked for, tells of the path. Neither is a fault of the
/// server.
pub proof fn searches_tell_what_is_missing(error: FlightPathError)
    ensures
        search_error(error) == AppErrorModel::NoImagesFound <==> error
            == FlightPathError::InsufficientMaterial,
        error == FlightPathError::InvalidPath ==> search_error(error) == AppErrorModel::FlightPath(
            FlightPathError::InvalidPath,
        ),
        search_error(error).status() == 422,
{
}

} // verus!
