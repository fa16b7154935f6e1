//! Jobs: their states, the errors that end them, and the database columns that
//! both are stored in.
use vstd::prelude::*;

use crate::ids::Uuid;
use crate::number;
use crate::number::{decimal_i64, parse_i64};
use crate::shared::stage::{IsceStage, MiaplpyStage, MintpyStage};
use crate::shared::tier::UserTier;
use crate::text;
use crate::text::{concat2, text_eq};
use crate::time::Timestamp;

verus! {

// ---------------------------------------------------------------------------
// Job error
// ---------------------------------------------------------------------------

/// Why a job failed.
#[derive(Debug)]
pub enum JobError {
    /// Container exited with a non-zero status code.
    ContainerFailed { exit_code: i64 },
    /// Container could not be started (image missing, Docker daemon error, etc).
    ContainerStartFailed { reason: String },
    /// Container exceeded its allowed wall-clock runtime.
    Timeout,
    /// Scheduler-internal error unrelated to the container itself.
    Internal { message: String },
}

/// What a `JobError` says, with texts as sequences of characters.
pub enum JobErrorModel {
    ContainerFailed { exit_code: int },
    ContainerStartFailed { reason: Seq<char> },
    Timeout,
    Internal { message: Seq<char> },
}

impl View for JobError {
    type V = JobErrorModel;

    open spec fn view(&self) -> JobErrorModel {
        match *self {
            JobError::ContainerFailed { exit_code } => JobErrorModel::ContainerFailed {
                exit_code: exit_code as int,
            },
            JobError::ContainerStartFailed { reason } => JobErrorModel::ContainerStartFailed {
                reason: reason@,
            },
            JobError::Timeout => JobErrorModel::Timeout,
            JobError::Internal { message } => JobErrorModel::Internal { message: message@ },
        }
    }
}

impl JobErrorModel {
    /// The value of the `job_error_kind` column.
    pub open spec fn kind(self) -> Seq<char> {
        match self {
            Self::ContainerFailed { .. } => "container_failed"@,
            Self::ContainerStartFailed { .. } => "container_start_failed"@,
            Self::Timeout => "timeout"@,
            Self::Internal { .. } => "internal"@,
        }
    }

    /// The value of the `job_error_message` column.
    pub open spec fn detail(self) -> Option<Seq<char>> {
        match self {
            Self::ContainerFailed { exit_code } => Some(number::decimal(exit_code)),
            Self::ContainerStartFailed { reason } => Some(reason),
            Self::Timeout => None,
            Self::Internal { message } => Some(message),
        }
    }

    /// The text that describes the error.
    pub open spec fn text(self) -> Seq<char> {
        match self {
            Self::ContainerFailed { exit_code } => "container exited with non-zero status: "@
                + number::decimal(exit_code),
            Self::ContainerStartFailed { reason } => "container failed to start: "@ + reason,
            Self::Timeout => "container timed out"@,
            Self::Internal { message } => "internal scheduler error: "@ + message,
        }
    }

    /// The error that the two columns store, if the kind is a known one. An exit
    /// code that cannot be read counts as -1.
    pub open spec fn stored(kind: Seq<char>, message: Seq<char>) -> Option<JobErrorModel> {
        if kind == "container_failed"@ {
            Some(
                Self::ContainerFailed {
                    exit_code: match number::parsed_integer(
                        message,
                        true,
                        i64::MIN as int,
                        i64::MAX as int,
                    ) {
                        Some(n) => n,
                        None => -1,
                    },
                },
            )
        } else if kind == "container_start_failed"@ {
            Some(Self::ContainerStartFailed { reason: message })
        } else if kind == "timeout"@ {
            Some(Self::Timeout)
        } else if kind == "internal"@ {
            Some(Self::Internal { message })
        } else {
            None
        }
    }
}

proof fn lemma_kinds_differ()
    ensures
        "container_failed"@.len() == 16,
        "container_start_failed"@.len() == 22,
        "timeout"@.len() == 7,
        "internal"@.len() == 8,
{
    reveal_strlit("container_failed");
    reveal_strlit("container_start_failed");
    reveal_strlit("timeout");
    reveal_strlit("internal");
}

impl JobError {
    /// A copy of the error.
    pub fn duplicate(&self) -> (r: JobError)
        ensures
            r@ == self@,
    {
        match self {
            Self::ContainerFailed { exit_code } => Self::ContainerFailed { exit_code: *exit_code },
            Self::ContainerStartFailed { reason } => Self::ContainerStartFailed {
                reason: reason.clone(),
            },
            Self::Timeout => Self::Timeout,
            Self::Internal { message } => Self::Internal { message: message.clone() },
        }
    }

    /// The value of the `job_error_kind` column.
    pub fn kind(&self) -> (r: &'static str)
        ensures
            r@ == self@.kind(),
    {
        match self {
            Self::ContainerFailed { .. } => "container_failed",
            Self::ContainerStartFailed { .. } => "container_start_failed",
            Self::Timeout => "timeout",
            Self::Internal { .. } => "internal",
        }
    }

    /// Encodes variant-specific detail into the `job_error_message` column.
    pub fn to_db_string(&self) -> (r: Option<String>)
        ensures
            text::opt_text(r) == self@.detail(),
    {
        match self {
            Self::ContainerFailed { exit_code } => Some(decimal_i64(*exit_code)),
            Self::ContainerStartFailed { reason } => Some(reason.clone()),
            Self::Timeout => None,
            Self::Internal { message } => Some(message.clone()),
        }
    }

    /// Reads an error back from its columns; none for an unknown kind.
    pub fn from_db(kind: &str, message: &str) -> (r: Option<Self>)
        ensures
            match r {
                Some(error) => JobErrorModel::stored(kind@, message@) == Some(error@),
                None => JobErrorModel::stored(kind@, message@) is None,
            },
    {
        proof {
            lemma_kinds_differ();
        }
        if text_eq(kind, "container_failed") {
            let exit_code: i64 = match parse_i64(message) {
                Some(n) => n,
                None => -1,
            };
            Some(Self::ContainerFailed { exit_code })
        } else if text_eq(kind, "container_start_failed") {
            Some(Self::ContainerStartFailed { reason: message.to_owned() })
        } else if text_eq(kind, "timeout") {
            Some(Self::Timeout)
        } else if text_eq(kind, "internal") {
            Some(Self::Internal { message: message.to_owned() })
        } else {
            None
        }
    }

    /// The text that describes the error.
    pub fn message(&self) -> (r: String)
        ensures
            r@ == self@.text(),
    {
        match self {
            Self::ContainerFailed { exit_code } => concat2(
                "container exited with non-zero status: ",
                decimal_i64(*exit_code).as_str(),
            ),
            Self::ContainerStartFailed { reason } => concat2(
                "container failed to start: ",
                reason.as_str(),
            ),
            Self::Timeout => "container timed out".to_owned(),
            Self::Internal { message } => concat2("internal scheduler error: ", message.as_str()),
        }
    }
}

/// What an error stores in its two columns, reading gives back. An absent
/// message is read as an empty one.
pub proof fn job_error_reads_back(error: JobError)
    ensures
        JobErrorModel::stored(
            error@.kind(),
            match error@.detail() {
                Some(message) => message,
                None => ""@,
            },
        ) == Some(error@),
{
    lemma_kinds_differ();
    if let JobError::ContainerFailed { exit_code } = error {
        number::decimal_reads_back(exit_code as int);
    }
}

// ---------------------------------------------------------------------------
// Job state
// ---------------------------------------------------------------------------

/// Where a job stands.
#[derive(Debug)]
#[allow(inconsistent_fields)]
pub enum JobState {
    /// API server has registered the job; scheduler has not yet picked it up.
    Queued,
    /// API server is writing spec files and scaffolding directories.
    Initializing,
    /// Download container is running.
    Downloading,
    /// ISCE2 processing container is running the given stage.
    IsceProcessing { stage: IsceStage },
    /// MintPy container is running the given stage.
    MintpyProcessing { stage: MintpyStage },
    /// MiaplPy container is running the given stage.
    MiaplpyProcessing { stage: MiaplpyStage },
    /// Results container is generating output products (e.g. velocity.png).
    ResultsGenerating,
    /// All steps completed successfully.
    Completed,
    /// A critical error halted processing.
    Failed { error: JobError },
    /// Cancelled by user or API server.
    Cancelled,
}

/// What a `JobState` says, with texts as sequences of characters.
#[allow(inconsistent_fields)]
pub enum JobStateModel {
    Queued,
    Initializing,
    Downloading,
    IsceProcessing { stage: IsceStage },
    MintpyProcessing { stage: MintpyStage },
    MiaplpyProcessing { stage: MiaplpyStage },
    ResultsGenerating,
    Completed,
    Failed { error: JobErrorModel },
    Cancelled,
}

impl View for JobState {
    type V = JobStateModel;

    open spec fn view(&self) -> JobStateModel {
        match *self {
            JobState::Queued => JobStateModel::Queued,
            JobState::Initializing => JobStateModel::Initializing,
            JobState::Downloading => JobStateModel::Downloading,
            JobState::IsceProcessing { stage } => JobStateModel::IsceProcessing { stage },
            JobState::MintpyProcessing { stage } => JobStateModel::MintpyProcessing { stage },
            JobState::MiaplpyProcessing { stage } => JobStateModel::MiaplpyProcessing { stage },
            JobState::ResultsGenerating => JobStateModel::ResultsGenerating,
            JobState::Completed => JobStateModel::Completed,
            JobState::Failed { error } => JobStateModel::Failed { error: error@ },
            JobState::Cancelled => JobStateModel::Cancelled,
        }
    }
}

impl JobStateModel {
    /// Whether the scheduler may run a step of the job.
    pub open spec fn advanceable(self) -> bool {
        match self {
            Self::Queued | Self::Downloading | Self::ResultsGenerating => true,
            Self::IsceProcessing { .. } | Self::MintpyProcessing { .. } => true,
            Self::MiaplpyProcessing { .. } => true,
            _ => false,
        }
    }

    /// Whether the stage that the state names is a defined one.
    pub open spec fn valid(self) -> bool {
        match self {
            Self::MiaplpyProcessing { stage } => stage.valid(),
            _ => true,
        }
    }

    /// Whether the job has ended.
    pub open spec fn terminal(self) -> bool {
        self is Completed || self is Failed || self is Cancelled
    }

    /// The value of the `job_state` column.
    pub open spec fn name(self) -> Seq<char> {
        match self {
            Self::Queued => "queued"@,
            Self::Initializing => "initializing"@,
            Self::Downloading => "downloading"@,
            Self::IsceProcessing { .. } => "isce_processing"@,
            Self::MintpyProcessing { .. } => "mintpy_processing"@,
            Self::MiaplpyProcessing { .. } => "miaplpy_processing"@,
            Self::ResultsGenerating => "results_generating"@,
            Self::Completed => "completed"@,
            Self::Failed { .. } => "failed"@,
            Self::Cancelled => "cancelled"@,
        }
    }

    /// The value of the `job_stage` column.
    pub open spec fn stage_name(self) -> Option<Seq<char>> {
        match self {
            Self::IsceProcessing { stage } => Some(stage.name()),
            Self::MintpyProcessing { stage } => Some(stage.name()),
            Self::MiaplpyProcessing { stage } => Some(stage.name()),
            _ => None,
        }
    }

    /// The value of the `job_error_kind` column.
    pub open spec fn error_kind(self) -> Option<Seq<char>> {
        match self {
            Self::Failed { error } => Some(error.kind()),
            _ => None,
        }
    }

    /// The value of the `job_error_message` column.
    pub open spec fn error_message(self) -> Option<Seq<char>> {
        match self {
            Self::Failed { error } => error.detail(),
            _ => None,
        }
    }
}

impl JobState {
    /// A copy of the state.
    pub fn duplicate(&self) -> (r: JobState)
        ensures
            r@ == self@,
    {
        match self {
            Self::Queued => Self::Queued,
            Self::Initializing => Self::Initializing,
            Self::Downloading => Self::Downloading,
            Self::IsceProcessing { stage } => Self::IsceProcessing { stage: *stage },
            Self::MintpyProcessing { stage } => Self::MintpyProcessing { stage: *stage },
            Self::MiaplpyProcessing { stage } => Self::MiaplpyProcessing { stage: *stage },
            Self::ResultsGenerating => Self::ResultsGenerating,
            Self::Completed => Self::Completed,
            Self::Failed { error } => Self::Failed { error: error.duplicate() },
            Self::Cancelled => Self::Cancelled,
        }
    }

    /// Whether the scheduler may run a step of the job.
    pub fn is_advanceable(&self) -> (r: bool)
        ensures
            r == self@.advanceable(),
    {
        matches!(
            self,
            Self::Queued
                | Self::Downloading
                | Self::IsceProcessing { .. }
                | Self::MintpyProcessing { .. }
                | Self::MiaplpyProcessing { .. }
                | Self::ResultsGenerating
        )
    }

    /// Whether the job has ended.
    pub fn is_terminal(&self) -> (r: bool)
        ensures
            r == self@.terminal(),
    {
        matches!(self, Self::Completed | Self::Failed { .. } | Self::Cancelled)
    }

    /// The value of the `job_state` column.
    pub fn as_str(&self) -> (r: &'static str)
        ensures
            r@ == self@.name(),
    {
        match self {
            Self::Queued => "queued",
            Self::Initializing => "initializing",
            Self::Downloading => "downloading",
            Self::IsceProcessing { .. } => "isce_processing",
            Self::MintpyProcessing { .. } => "mintpy_processing",
            Self::MiaplpyProcessing { .. } => "miaplpy_processing",
            Self::ResultsGenerating => "results_generating",
            Self::Completed => "completed",
            Self::Failed { .. } => "failed",
            Self::Cancelled => "cancelled",
        }
    }

    /// The value of the `job_stage` column. What the four columns store of the
    /// state, reading gives back.
    pub fn as_stage_str(&self) -> (r: Option<String>)
        ensures
            text::opt_text(r) == self@.stage_name(),
            self@.valid(),
            stored_state(
                self@.name(),
                text::opt_text(r),
                self@.error_kind(),
                self@.error_message(),
            ) == Ok::<JobStateModel, JobRowErrorModel>(self@),
    {
        let r = match self {
            Self::IsceProcessing { stage } => Some(stage.as_str().to_owned()),
            Self::MintpyProcessing { stage } => Some(stage.as_str().to_owned()),
            Self::MiaplpyProcessing { stage } => {
                stage.index();
                Some(stage.as_str().to_owned())
            },
            _ => None,
        };
        proof {
            job_state_reads_back(*self);
        }
        r
    }
}

/// No job is both finished and due for another step.
pub proof fn terminal_jobs_do_not_advance(state: JobStateModel)
    ensures
        !(state.terminal() && state.advanceable()),
        !state.terminal() && !state.advanceable() <==> state is Initializing,
{
}

// ---------------------------------------------------------------------------
// Database rows
// ---------------------------------------------------------------------------

/// A fully typed job record, converted from a raw `JobRow`.
#[derive(Debug)]
pub struct Job {
    pub id: Uuid,
    pub user_id: Uuid,
    pub workflow: String,
    pub state: JobState,
    /// The tier whose resource limits apply to this specific job. May differ
    /// from the owning user's account tier when a prepaid code was redeemed.
    pub effective_tier: UserTier,
    pub work_dir: String,
    pub created_at: Timestamp,
    pub updated_at: Timestamp,
}

/// Direct mapping of the `jobs` table row. Only used at the DB boundary.
#[derive(Debug)]
pub struct JobRow {
    pub id: Uuid,
    pub user_id: Uuid,
    pub workflow: String,
    pub job_state: String,
    pub job_stage: Option<String>,
    pub job_error_kind: Option<String>,
    pub job_error_message: Option<String>,
    pub effective_tier: String,
    pub work_dir: String,
    pub created_at: Timestamp,
    pub updated_at: Timestamp,
}

/// Why a row is no job.
#[derive(Debug)]
pub enum JobRowError {
    UnknownState(String),
    MissingStage { state: String },
    UnknownStage { state: String, stage: String },
    MissingErrorKind,
    UnknownTier(String),
}

/// What a `JobRowError` says, with texts as sequences of characters.
pub enum JobRowErrorModel {
    UnknownState(Seq<char>),
    MissingStage { state: Seq<char> },
    UnknownStage { state: Seq<char>, stage: Seq<char> },
    MissingErrorKind,
    UnknownTier(Seq<char>),
}

impl View for JobRowError {
    type V = JobRowErrorModel;

    open spec fn view(&self) -> JobRowErrorModel {
        match *self {
            JobRowError::UnknownState(s) => JobRowErrorModel::UnknownState(s@),
            JobRowError::MissingStage { state } => JobRowErrorModel::MissingStage { state: state@ },
            JobRowError::UnknownStage { state, stage } => JobRowErrorModel::UnknownStage {
                state: state@,
                stage: stage@,
            },
            JobRowError::MissingErrorKind => JobRowErrorModel::MissingErrorKind,
            JobRowError::UnknownTier(s) => JobRowErrorModel::UnknownTier(s@),
        }
    }
}

/// The state that the four columns store. States that run stages need the name
/// of one of theirs; a failed job needs the kind of its error, and one of an
/// unknown kind reads as an internal error that names it.
pub open spec fn stored_state(
    state: Seq<char>,
    stage: Option<Seq<char>>,
    error_kind: Option<Seq<char>>,
    error_message: Option<Seq<char>>,
) -> Result<JobStateModel, JobRowErrorModel> {
    if state == "queued"@ {
        Ok(JobStateModel::Queued)
    } else if state == "initializing"@ {
        Ok(JobStateModel::Initializing)
    } else if state == "downloading"@ {
        Ok(JobStateModel::Downloading)
    } else if state == "results_generating"@ {
        Ok(JobStateModel::ResultsGenerating)
    } else if state == "completed"@ {
        Ok(JobStateModel::Completed)
    } else if state == "cancelled"@ {
        Ok(JobStateModel::Cancelled)
    } else if state == "failed"@ {
        match error_kind {
            None => Err(JobRowErrorModel::MissingErrorKind),
            Some(kind) => {
                let message = match error_message {
                    Some(message) => message,
                    None => ""@,
                };
                Ok(
                    JobStateModel::Failed {
                        error: match JobErrorModel::stored(kind, message) {
                            Some(error) => error,
                            None => JobErrorModel::Internal {
                                message: "unrecognised error kind in DB: "@ + kind,
                            },
                        },
                    },
                )
            },
        }
    } else if state == "isce_processing"@ || state == "mintpy_processing"@ || state
        == "miaplpy_processing"@ {
        match stage {
            None => Err(JobRowErrorModel::MissingStage { state }),
            Some(name) => if state == "isce_processing"@ && IsceStage::named(name) is Some {
                Ok(JobStateModel::IsceProcessing { stage: IsceStage::named(name)->0 })
            } else if state == "mintpy_processing"@ && MintpyStage::named(name) is Some {
                Ok(JobStateModel::MintpyProcessing { stage: MintpyStage::named(name)->0 })
            } else {
                Err(JobRowErrorModel::UnknownStage { state, stage: name })
            },
        }
    } else {
        Err(JobRowErrorModel::UnknownState(state))
    }
}

pub(crate) proof fn lemma_state_names_differ()
    ensures
        "queued"@.len() == 6,
        "initializing"@.len() == 12,
        "downloading"@.len() == 11,
        "isce_processing"@.len() == 15,
        "mintpy_processing"@.len() == 17,
        "miaplpy_processing"@.len() == 18,
        "results_generating"@.len() == 18,
        "completed"@.len() == 9,
        "failed"@.len() == 6,
        "cancelled"@.len() == 9,
        "queued"@ != "failed"@,
        "miaplpy_processing"@ != "results_generating"@,
        "completed"@ != "cancelled"@,
{
    reveal_strlit("queued");
    reveal_strlit("initializing");
    reveal_strlit("downloading");
    reveal_strlit("isce_processing");
    reveal_strlit("mintpy_processing");
    reveal_strlit("miaplpy_processing");
    reveal_strlit("results_generating");
    reveal_strlit("completed");
    reveal_strlit("failed");
    reveal_strlit("cancelled");
    assert("queued"@[0] != "failed"@[0]);
    assert("miaplpy_processing"@[0] != "results_generating"@[0]);
    assert("completed"@[1] != "cancelled"@[1]);
}

/// Reads a job's state from its columns.
pub fn parse_job_state(
    state: &str,
    stage: Option<&str>,
    error_kind: Option<&str>,
    error_message: Option<&str>,
) -> (r: Result<JobState, JobRowError>)
    ensures
        match (r, stored_state(
            state@,
            text::opt_str(stage),
            text::opt_str(error_kind),
            text::opt_str(error_message),
        )) {
            (Ok(found), Ok(stored)) => found@ == stored,
            (Err(error), Err(stored)) => error@ == stored,
            _ => false,
        },
{
    proof {
        lemma_state_names_differ();
    }
    if text_eq(state, "queued") {
        Ok(JobState::Queued)
    } else if text_eq(state, "initializing") {
        Ok(JobState::Initializing)
    } else if text_eq(state, "downloading") {
        Ok(JobState::Downloading)
    } else if text_eq(state, "results_generating") {
        Ok(JobState::ResultsGenerating)
    } else if text_eq(state, "completed") {
        Ok(JobState::Completed)
    } else if text_eq(state, "cancelled") {
        Ok(JobState::Cancelled)
    } else if text_eq(state, "isce_processing") {
        match stage {
            None => Err(JobRowError::MissingStage { state: state.to_owned() }),
            Some(s) => match IsceStage::from_str(s) {
                Some(stage) => Ok(JobState::IsceProcessing { stage }),
                None => Err(
                    JobRowError::UnknownStage { state: state.to_owned(), stage: s.to_owned() },
                ),
            },
        }
    } else if text_eq(state, "mintpy_processing") {
        match stage {
            None => Err(JobRowError::MissingStage { state: state.to_owned() }),
            Some(s) => match MintpyStage::from_str(s) {
                Some(stage) => Ok(JobState::MintpyProcessing { stage }),
                None => Err(
                    JobRowError::UnknownStage { state: state.to_owned(), stage: s.to_owned() },
                ),
            },
        }
    } else if text_eq(state, "miaplpy_processing") {
        match stage {
            None => Err(JobRowError::MissingStage { state: state.to_owned() }),
            Some(s) => match MiaplpyStage::from_str(s) {
                Some(stage) => Ok(JobState::MiaplpyProcessing { stage }),
                None => Err(
                    JobRowError::UnknownStage { state: state.to_owned(), stage: s.to_owned() },
                ),
            },
        }
    } else if text_eq(state, "failed") {
        match error_kind {
            None => Err(JobRowError::MissingErrorKind),
            Some(kind) => {
                let message = match error_message {
                    Some(message) => message,
                    None => "",
                };
                let error = match JobError::from_db(kind, message) {
                    Some(error) => error,
                    None => JobError::Internal {
                        message: concat2("unrecognised error kind in DB: ", kind),
                    },
                };
                Ok(JobState::Failed { error })
            },
        }
    } else {
        Err(JobRowError::UnknownState(state.to_owned()))
    }
}

/// What the four columns store of a state, reading gives back.
pub proof fn job_state_reads_back(state: JobState)
    requires
        state@.valid(),
    ensures
        stored_state(
            state@.name(),
            state@.stage_name(),
            state@.error_kind(),
            state@.error_message(),
        ) == Ok::<JobStateModel, JobRowErrorModel>(state@),
{
    lemma_state_names_differ();
    match state {
        JobState::IsceProcessing { stage } => {
            IsceStage::named_is_unique(stage);
        },
        JobState::MintpyProcessing { stage } => {
            MintpyStage::named_is_unique(stage);
        },
        JobState::Failed { error } => {
            job_error_reads_back(error);
        },
        _ => {},
    }
}

impl JobRow {
    /// The state that the row stores.
    pub open spec fn state(self) -> Result<JobStateModel, JobRowErrorModel> {
        stored_state(
            self.job_state@,
            text::opt_text(self.job_stage),
            text::opt_text(self.job_error_kind),
            text::opt_text(self.job_error_message),
        )
    }
}

impl Job {
    /// Whether the job is what the row stores.
    pub open spec fn decodes(self, row: JobRow) -> bool {
        &&& self.id == row.id
        &&& self.user_id == row.user_id
        &&& self.workflow@ == row.workflow@
        &&& row.state() == Ok::<JobStateModel, JobRowErrorModel>(self.state@)
        &&& UserTier::named(row.effective_tier@) == Some(self.effective_tier)
        &&& self.work_dir@ == row.work_dir@
        &&& self.created_at == row.created_at
        &&& self.updated_at == row.updated_at
    }

    /// Why the row is no job. The state is looked at before the tier.
    pub open spec fn rejects(error: JobRowErrorModel, row: JobRow) -> bool {
        match row.state() {
            Err(found) => error == found,
            Ok(_) => UserTier::named(row.effective_tier@) is None && error
                == JobRowErrorModel::UnknownTier(row.effective_tier@),
        }
    }
}

/// A borrowed optional text.
pub fn as_deref(s: &Option<String>) -> (r: Option<&str>)
    ensures
        text::opt_str(r) == text::opt_text(*s),
{
    match s {
        Some(t) => Some(t.as_str()),
        None => None,
    }
}

impl TryFrom<JobRow> for Job {
    type Error = JobRowError;

    fn try_from(row: JobRow) -> (r: Result<Self, Self::Error>)
        ensures
            match r {
                Ok(job) => job.decodes(row),
                Err(error) => Job::rejects(error@, row),
            },
    {
        let state = match parse_job_state(
            row.job_state.as_str(),
            as_deref(&row.job_stage),
            as_deref(&row.job_error_kind),
            as_deref(&row.job_error_message),
        ) {
            Ok(state) => state,
            Err(error) => {
                return Err(error);
            },
        };
        let effective_tier = match UserTier::from_str(row.effective_tier.as_str()) {
            Some(tier) => tier,
            None => {
                return Err(JobRowError::UnknownTier(row.effective_tier.clone()));
            },
        };
        Ok(
            Job {
                id: row.id,
                user_id: row.user_id,
                workflow: row.workflow,
                state,
                effective_tier,
                work_dir: row.work_dir,
                created_at: row.created_at,
                updated_at: row.updated_at,
            },
        )
    }
}

impl vstd::std_specs::convert::TryFromSpecImpl<JobRow> for Job {
    open spec fn obeys_try_from_spec() -> bool {
        false
    }

    open spec fn try_from_spec(row: JobRow) -> Result<Self, Self::Error> {
        arbitrary()
    }
}

/// A row is a job or there is an error that tells why it is none, never both; a row
/// with a known state and a known tier is one.
pub proof fn rows_are_jobs_or_not(row: JobRow, job: Job, error: JobRowErrorModel)
    ensures
        job.decodes(row) ==> !Job::rejects(error, row),
        Job::rejects(error, row) ==> row.state() is Err || UserTier::named(row.effective_tier@)
            is None,
        Job::rejects(error, row) && row.state() is Err ==> row.state() == Err::<
            JobStateModel,
            JobRowErrorModel,
        >(error),
{
}

} // verus!
