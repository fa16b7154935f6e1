//! Job status endpoints.
use vstd::prelude::*;

use crate::ids::Uuid;
use crate::server::error::{AppError, AppErrorModel};
use crate::shared::job;
use crate::shared::job::{Job, JobRow, JobState, JobStateModel};
use crate::shared::tier::UserTier;
use crate::shared::types::JobRequest;
use crate::text;
use crate::time::Timestamp;

verus! {

/// The body of `POST /jobs`: the request, and the user UUID that the interface
/// got from `/auth/telegram`.
#[derive(Debug)]
pub struct CreateJobRequest {
    pub user_id: Uuid,
    pub job: JobRequest,
}

/// The query of `GET /jobs`.
#[derive(Debug, Clone, Copy, PartialEq, Eq, Structural)]
pub struct ListJobsQuery {
    pub user_id: Uuid,
}

/// Public job representation returned by the API.
#[derive(Debug)]
pub struct JobResponse {
    pub id: Uuid,
    pub user_id: Uuid,
    pub workflow: String,
    pub state: String,
    pub stage: Option<String>,
    pub error: Option<String>,
    pub effective_tier: String,
    pub work_dir: String,
    pub created_at: Timestamp,
    pub updated_at: Timestamp,
}

/// What a client is told of why a job failed.
pub open spec fn shown_error(state: JobStateModel) -> Option<Seq<char>> {
    match state {
        JobStateModel::Failed { error } => Some(error.text()),
        _ => None,
    }
}

impl JobResponse {
    /// Whether the response shows the job.
    pub open spec fn shows(self, job: Job) -> bool {
        &&& self.id == job.id
        &&& self.user_id == job.user_id
        &&& self.workflow@ == job.workflow@
        &&& self.state@ == job.state@.name()
        &&& text::opt_text(self.stage) == job.state@.stage_name()
        &&& text::opt_text(self.error) == shown_error(job.state@)
        &&& self.effective_tier@ == job.effective_tier.name()
        &&& self.work_dir@ == job.work_dir@
        &&& self.created_at == job.created_at
        &&& self.updated_at == job.updated_at
    }
}

impl From<Job> for JobResponse {
    fn from(j: Job) -> (r: Self)
        ensures
            r.shows(j),
    {
        let error = match &j.state {
            JobState::Failed { error } => Some(error.message()),
            _ => None,
        };
        JobResponse {
            id: j.id,
            user_id: j.user_id,
            workflow: j.workflow,
            state: j.state.as_str().to_owned(),
            stage: j.state.as_stage_str(),
            error,
            effective_tier: j.effective_tier.as_str().to_owned(),
            work_dir: j.work_dir,
            created_at: j.created_at,
            updated_at: j.updated_at,
        }
    }
}

impl vstd::std_specs::convert::FromSpecImpl<Job> for JobResponse {
    open spec fn obeys_from_spec() -> bool {
        false
    }

    open spec fn from_spec(j: Job) -> Self {
        arbitrary()
    }
}

/// `GET /jobs/:id`: the current state of a single job.
pub fn get_job_handler(job: Option<Job>) -> (r: Result<JobResponse, AppError>)
    ensures
        match (job, r) {
            (Some(job), Ok(response)) => response.shows(job),
            (None, Err(error)) => error@ == AppErrorModel::JobNotFound,
            _ => false,
        },
{
    match job {
        Some(job) => Ok(JobResponse::from(job)),
        None => Err(AppError::JobNotFound),
    }
}

/// `GET /jobs?user_id=<uuid>`: all jobs of a user, in the order given.
pub fn list_jobs(jobs: Vec<Job>) -> (r: Vec<JobResponse>)
    ensures
        r.len() == jobs.len(),
        forall|i: int| 0 <= i < jobs.len() ==> (#[trigger] r[i]).shows(jobs[i]),
{
    let ghost all = jobs@;
    let mut out: Vec<JobResponse> = Vec::new();
    for job in it: jobs
        invariant
            it.seq() == all,
            out.len() == it.index(),
            forall|i: int| 0 <= i < out.len() ==> (#[trigger] out[i]).shows(all[i]),
    {
        out.push(JobResponse::from(job));
    }
    out
}

/// `DELETE /jobs/:id`: whether a job may be cancelled. Only allowed while the
/// job is not yet in a terminal state.
pub fn cancel_job(job: Option<Job>) -> (r: Result<(), AppError>)
    ensures
        match (job, r) {
            (None, Err(error)) => error@ == AppErrorModel::JobNotFound,
            (Some(job), Err(error)) => job.state@.terminal() && error@ == AppErrorModel::Validation(
                "job is already in a terminal state and cannot be cancelled"@,
            ),
            (Some(job), Ok(())) => !job.state@.terminal(),
            _ => false,
        },
{
    match job {
        None => Err(AppError::JobNotFound),
        Some(job) => {
            if job.state.is_terminal() {
                Err(
                    AppError::Validation(
                        "job is already in a terminal state and cannot be cancelled".to_owned(),
                    ),
                )
            } else {
                Ok(())
            }
        },
    }
}

/// What the database holds of a job is what a client is shown of it: the columns
/// of its row, each under its own name, with the stage only while one runs and an
/// error only where the job failed.
pub proof fn rows_are_what_clients_see(row: JobRow, job: Job, response: JobResponse)
    requires
        job.decodes(row),
        response.shows(job),
    ensures
        response.id == row.id,
        response.user_id == row.user_id,
        response.workflow@ == row.workflow@,
        response.state@ == row.job_state@,
        response.effective_tier@ == row.effective_tier@,
        response.work_dir@ == row.work_dir@,
        response.created_at == row.created_at,
        response.updated_at == row.updated_at,
        text::opt_text(response.stage) == if row.job_state@ == "isce_processing"@ || row.job_state@
            == "mintpy_processing"@ {
            text::opt_text(row.job_stage)
        } else {
            None
        },
        response.error is Some <==> row.job_state@ == "failed"@,
{
    job::lemma_state_names_differ();
}

/// Two jobs are shown alike only where they are alike.
pub proof fn different_jobs_are_shown_differently(
    a: Job,
    b: Job,
    shown_a: JobResponse,
    shown_b: JobResponse,
)
    requires
        shown_a.shows(a),
        shown_b.shows(b),
        shown_a.id == shown_b.id,
        shown_a.user_id == shown_b.user_id,
        shown_a.workflow@ == shown_b.workflow@,
        shown_a.effective_tier@ == shown_b.effective_tier@,
        shown_a.work_dir@ == shown_b.work_dir@,
        shown_a.created_at == shown_b.created_at,
        shown_a.updated_at == shown_b.updated_at,
    ensures
        a.id == b.id,
        a.user_id == b.user_id,
        a.workflow@ == b.workflow@,
        a.effective_tier == b.effective_tier,
        a.work_dir@ == b.work_dir@,
        a.created_at == b.created_at,
        a.updated_at == b.updated_at,
{
    UserTier::names_differ(a.effective_tier, b.effective_tier);
}

} // verus!
