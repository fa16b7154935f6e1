//! The column values that the job queries write, and what is made of the rows
//! that they read.
use vstd::prelude::*;

use crate::ids::Uuid;
use crate::shared::job;
use crate::shared::job::{
    Job, JobError, JobRow, JobRowError, JobRowErrorModel, JobState, JobStateModel,
};
use crate::shared::result::{ResultRequest, ResultRequestRow, ResultRequestRowError};
use crate::shared::result::{ResultState, ResultType};
use crate::shared::tier::UserTier;
use crate::text;

verus! {

// ---------------------------------------------------------------------------
// Errors
// ---------------------------------------------------------------------------

/// Why a job query gave no answer.
#[derive(Debug)]
pub enum QueryError {
    /// The database reported an error, described by this text.
    Sqlx(String),
    /// A row could not be decoded.
    RowDecode { job_id: Uuid, source: JobRowError },
}

/// What a `QueryError` says.
pub enum QueryErrorModel {
    Sqlx(Seq<char>),
    RowDecode { job_id: Uuid, source: JobRowErrorModel },
}

impl View for QueryError {
    type V = QueryErrorModel;

    open spec fn view(&self) -> QueryErrorModel {
        match *self {
            QueryError::Sqlx(m) => QueryErrorModel::Sqlx(m@),
            QueryError::RowDecode { job_id, source } => QueryErrorModel::RowDecode {
                job_id,
                source: source@,
            },
        }
    }
}

/// Why a result request query gave no answer.
#[derive(Debug)]
pub enum ResultQueryError {
    /// The database reported an error, described by this text.
    Sqlx(String),
    /// A row could not be decoded.
    RowDecode { id: Uuid, source: ResultRequestRowError },
}

// ---------------------------------------------------------------------------
// Job updates
// ---------------------------------------------------------------------------

/// The values of the columns that hold a job's state.
#[derive(Debug)]
pub struct StateColumns {
    pub job_state: String,
    pub job_stage: Option<String>,
    pub job_error_kind: Option<String>,
    pub job_error_message: Option<String>,
}

impl StateColumns {
    /// The state that the columns store.
    pub open spec fn stored(self) -> Result<JobStateModel, JobRowErrorModel> {
        job::stored_state(
            self.job_state@,
            text::opt_text(self.job_stage),
            text::opt_text(self.job_error_kind),
            text::opt_text(self.job_error_message),
        )
    }
}

/// Advances a job to the next state after a step completes successfully.
/// Clears the error columns.
pub fn advance_job_state(next_state: &JobState) -> (r: StateColumns)
    ensures
        r.job_state@ == next_state@.name(),
        text::opt_text(r.job_stage) == next_state@.stage_name(),
        r.job_error_kind is None,
        r.job_error_message is None,
{
    StateColumns {
        job_state: next_state.as_str().to_owned(),
        job_stage: next_state.as_stage_str(),
        job_error_kind: None,
        job_error_message: None,
    }
}

/// Transitions a job to `Failed`, persisting the typed error.
pub fn fail_job(error: &JobError) -> (r: StateColumns)
    ensures
        r.job_state@ == "failed"@,
        r.job_stage is None,
        text::opt_text(r.job_error_kind) == Some(error@.kind()),
        text::opt_text(r.job_error_message) == error@.detail(),
{
    StateColumns {
        job_state: "failed".to_owned(),
        job_stage: None,
        job_error_kind: Some(error.kind().to_owned()),
        job_error_message: error.to_db_string(),
    }
}

/// Transitions a job to `Completed`. Terminal: not claimed again.
pub fn complete_job() -> (r: StateColumns)
    ensures
        r.job_state@ == "completed"@,
        r.job_stage is None,
        r.job_error_kind is None,
        r.job_error_message is None,
{
    StateColumns {
        job_state: "completed".to_owned(),
        job_stage: None,
        job_error_kind: None,
        job_error_message: None,
    }
}

/// Reading a job back after it advanced gives the state that it advanced to.
pub proof fn advanced_job_reads_back(next: JobState, columns: StateColumns)
    requires
        !(next is Failed),
        next@.valid(),
        columns.job_state@ == next@.name(),
        text::opt_text(columns.job_stage) == next@.stage_name(),
        columns.job_error_kind is None,
        columns.job_error_message is None,
    ensures
        columns.stored() == Ok::<JobStateModel, JobRowErrorModel>(next@),
{
    job::job_state_reads_back(next);
}

/// Reading a job back after it failed gives the error that it failed with.
pub proof fn failed_job_reads_back(error: JobError, columns: StateColumns)
    requires
        columns.job_state@ == "failed"@,
        columns.job_stage is None,
        text::opt_text(columns.job_error_kind) == Some(error@.kind()),
        text::opt_text(columns.job_error_message) == error@.detail(),
    ensures
        columns.stored() == Ok::<JobStateModel, JobRowErrorModel>(
            JobStateModel::Failed { error: error@ },
        ),
{
    job::job_state_reads_back(JobState::Failed { error });
}

// ---------------------------------------------------------------------------
// Claiming
// ---------------------------------------------------------------------------

/// The names of the states in which a job is claimed for its next step.
pub open spec fn advanceable_names() -> Seq<Seq<char>> {
    seq![
        "queued"@,
        "downloading"@,
        "isce_processing"@,
        "mintpy_processing"@,
        "miaplpy_processing"@,
        "results_generating"@,
    ]
}

/// The names of the states in which a job is claimed for its next step.
pub fn advanceable_states() -> (r: Vec<String>)
    ensures
        text::texts(r@) == advanceable_names(),
{
    let r = vec![
        "queued".to_owned(),
        "downloading".to_owned(),
        "isce_processing".to_owned(),
        "mintpy_processing".to_owned(),
        "miaplpy_processing".to_owned(),
        "results_generating".to_owned(),
    ];
    assert(text::texts(r@) =~= advanceable_names());
    r
}

/// The claimed states are exactly those in which a job may advance.
pub proof fn claimed_states_are_advanceable(state: JobStateModel)
    ensures
        advanceable_names().contains(state.name()) <==> state.advanceable(),
{
    job::lemma_state_names_differ();
    let names = advanceable_names();
    assert(names.len() == 6);
    assert(names[0] == "queued"@);
    assert(names[1] == "downloading"@);
    assert(names[2] == "isce_processing"@);
    assert(names[3] == "mintpy_processing"@);
    assert(names[4] == "miaplpy_processing"@);
    assert(names[5] == "results_generating"@);
}

// ---------------------------------------------------------------------------
// Rows
// ---------------------------------------------------------------------------

/// Whether a row is that of a job.
pub open spec fn is_job(row: JobRow) -> bool {
    row.state() is Ok && UserTier::named(row.effective_tier@) is Some
}

/// Whether an error tells of the first row that is no job.
pub open spec fn first_bad_row(rows: Seq<JobRow>, job_id: Uuid, source: JobRowErrorModel) -> bool {
    exists|k: int|
        0 <= k < rows.len() && (#[trigger] rows[k]).id == job_id && Job::rejects(source, rows[k])
            && forall|i: int| 0 <= i < k ==> is_job(#[trigger] rows[i])
}

/// Decodes the rows of a query, in order. The first row that is no job ends it.
pub fn decode_rows(rows: Vec<JobRow>) -> (r: Result<Vec<Job>, QueryError>)
    ensures
        match r {
            Ok(jobs) => jobs.len() == rows.len() && forall|i: int|
                0 <= i < rows.len() ==> (#[trigger] jobs[i]).decodes(rows[i]),
            Err(QueryError::RowDecode { job_id, source }) => first_bad_row(
                rows@,
                job_id,
                source@,
            ),
            Err(QueryError::Sqlx(_)) => false,
        },
{
    let ghost all = rows@;
    let mut jobs: Vec<Job> = Vec::new();
    for row in it: rows
        invariant
            it.seq() == all,
            jobs.len() == it.index(),
            forall|i: int| 0 <= i < jobs.len() ==> (#[trigger] jobs[i]).decodes(all[i]),
    {
        let id = row.id;
        match Job::try_from(row) {
            Ok(job) => {
                jobs.push(job);
            },
            Err(source) => {
                proof {
                    let k = jobs.len() as int;
                    assert(all[k].id == id);
                    assert forall|i: int| 0 <= i < k implies is_job(#[trigger] all[i]) by {
                        assert(jobs[i].decodes(all[i]));
                    }
                }
                return Err(QueryError::RowDecode { job_id: id, source });
            },
        }
    }
    Ok(jobs)
}

/// Decodes the row of a single job, if there is one.
pub fn get_job(row: Option<JobRow>) -> (r: Result<Option<Job>, QueryError>)
    ensures
        match (row, r) {
            (None, Ok(None)) => true,
            (Some(row), Ok(Some(job))) => job.decodes(row),
            (Some(row), Err(QueryError::RowDecode { job_id, source })) => job_id == row.id
                && Job::rejects(source@, row),
            _ => false,
        },
{
    match row {
        None => Ok(None),
        Some(row) => {
            let id = row.id;
            match Job::try_from(row) {
                Ok(job) => Ok(Some(job)),
                Err(source) => Err(QueryError::RowDecode { job_id: id, source }),
            }
        },
    }
}

// ---------------------------------------------------------------------------
// Result requests
// ---------------------------------------------------------------------------

/// The values of a new row of the `result_requests` table.
#[derive(Debug)]
pub struct NewResultRequest {
    pub job_id: Option<Uuid>,
    pub result_type: String,
    pub params: Option<String>,
    pub state: String,
    pub work_dir: Option<String>,
}

/// The row of a new result request, in `queued` state.
///
/// `work_dir` is `None` for regular job result requests (the scheduler resolves
/// it via the jobs table) and `Some(path)` for demo result requests (the
/// scheduler uses it directly without touching the jobs table).
pub fn enqueue_result_request(
    job_id: Option<Uuid>,
    result_type: ResultType,
    params: Option<String>,
    work_dir: Option<String>,
) -> (r: NewResultRequest)
    ensures
        r.job_id == job_id,
        r.result_type@ == result_type.name(),
        r.params == params,
        r.state@ == ResultState::Queued.name(),
        r.work_dir == work_dir,
{
    NewResultRequest {
        job_id,
        result_type: result_type.as_str().to_owned(),
        params,
        state: ResultState::Queued.as_str().to_owned(),
        work_dir,
    }
}

/// The values that end or start the work on a result request: the state, and
/// the error column where it is written.
#[derive(Debug)]
pub struct ResultUpdate {
    pub state: String,
    /// The new value of the error column; `None` where it stays as it is.
    pub error: Option<Option<String>>,
}

/// Transitions a result request to `running`.
pub fn start_result_request() -> (r: ResultUpdate)
    ensures
        r.state@ == ResultState::Running.name(),
        r.error is None,
{
    ResultUpdate { state: ResultState::Running.as_str().to_owned(), error: None }
}

/// Transitions a result request to `completed`.
pub fn complete_result_request() -> (r: ResultUpdate)
    ensures
        r.state@ == ResultState::Completed.name(),
        r.error == Some(None::<String>),
{
    ResultUpdate { state: ResultState::Completed.as_str().to_owned(), error: Some(None) }
}

/// Transitions a result request to `failed`, persisting the error message.
pub fn fail_result_request(error: &str) -> (r: ResultUpdate)
    ensures
        r.state@ == ResultState::Failed.name(),
        r.error is Some,
        text::opt_text(r.error->0) == Some(error@),
{
    ResultUpdate {
        state: ResultState::Failed.as_str().to_owned(),
        error: Some(Some(error.to_owned())),
    }
}

/// Whether a row is that of a result request.
pub open spec fn is_request(row: ResultRequestRow) -> bool {
    ResultType::named(row.result_type@) is Some && ResultState::named(row.state@) is Some
}

/// Decodes the rows of a query, in order. The first row that is no result
/// request ends it.
pub fn decode_result_rows(rows: Vec<ResultRequestRow>) -> (r: Result<
    Vec<ResultRequest>,
    ResultQueryError,
>)
    ensures
        match r {
            Ok(requests) => requests.len() == rows.len() && forall|i: int|
                0 <= i < rows.len() ==> (#[trigger] requests[i]).decodes(rows[i]),
            Err(ResultQueryError::RowDecode { id, source }) => exists|k: int|
                0 <= k < rows.len() && (#[trigger] rows[k]).id == id && ResultRequest::rejects(
                    source@,
                    rows[k],
                ) && forall|i: int| 0 <= i < k ==> is_request(#[trigger] rows[i]),
            Err(ResultQueryError::Sqlx(_)) => false,
        },
{
    let ghost all = rows@;
    let mut requests: Vec<ResultRequest> = Vec::new();
    for row in it: rows
        invariant
            it.seq() == all,
            requests.len() == it.index(),
            forall|i: int| 0 <= i < requests.len() ==> (#[trigger] requests[i]).decodes(all[i]),
    {
        let id = row.id;
        match ResultRequest::try_from(row) {
            Ok(request) => {
                requests.push(request);
            },
            Err(source) => {
                proof {
                    let k = requests.len() as int;
                    assert(all[k].id == id);
                    assert forall|i: int| 0 <= i < k implies is_request(#[trigger] all[i]) by {
                        assert(requests[i].decodes(all[i]));
                    }
                }
                return Err(ResultQueryError::RowDecode { id, source });
            },
        }
    }
    Ok(requests)
}

/// Decodes the row of a single result request, if there is one.
pub fn get_result_request(row: Option<ResultRequestRow>) -> (r: Result<
    Option<ResultRequest>,
    ResultQueryError,
>)
    ensures
        match (row, r) {
            (None, Ok(None)) => true,
            (Some(row), Ok(Some(request))) => request.decodes(row),
            (Some(row), Err(ResultQueryError::RowDecode { id, source })) => id == row.id
                && ResultRequest::rejects(source@, row),
            _ => false,
        },
{
    match row {
        None => Ok(None),
        Some(row) => {
            let id = row.id;
            match ResultRequest::try_from(row) {
                Ok(request) => Ok(Some(request)),
                Err(source) => Err(ResultQueryError::RowDecode { id, source }),
            }
        },
    }
}

} // verus!
