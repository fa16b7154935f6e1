//! Result retrieval for completed jobs.
//!
//! - Velocity map: served directly from `{work_dir}/results/velocity.png`.
//! - Timeseries: a Docker container is run with the job's work_dir mounted,
//!   given lat/lon arguments; it writes output to `{work_dir}/results/`.
use vstd::prelude::*;

use crate::ids;
use crate::ids::Uuid;
use crate::number;
use crate::number::decimal_i64;
use crate::paths;
use crate::paths::join2;
use crate::server::error::{AppError, AppErrorModel};
use crate::shared::job::Job;
use crate::shared::job::JobState;
use crate::text;
use crate::text::{concat2, concat3, text_eq};

verus! {

/// What keeps a job from having results.
pub open spec fn completion_error(job: Option<Job>) -> Option<AppErrorModel> {
    match job {
        None => Some(AppErrorModel::JobNotFound),
        Some(job) => if job.state is Completed {
            None
        } else {
            Some(AppErrorModel::ResultNotFound("job is not yet completed"@))
        },
    }
}

/// The job, if it exists and has been completed.
pub fn completed_job(job: Option<Job>) -> (r: Result<Job, AppError>)
    ensures
        match r {
            Ok(found) => completion_error(job) is None && job == Some(found),
            Err(error) => completion_error(job) == Some(error@),
        },
{
    match job {
        None => Err(AppError::JobNotFound),
        Some(job) => {
            if matches!(job.state, JobState::Completed) {
                Ok(job)
            } else {
                Err(AppError::ResultNotFound("job is not yet completed".to_owned()))
            }
        },
    }
}

/// Where a result of a job lies.
pub open spec fn result_path(work_dir: Seq<char>, name: Seq<char>) -> Seq<char> {
    paths::joined_path(paths::joined_path(work_dir, "results"@), name)
}

/// A file to serve.
#[derive(Debug)]
pub struct ServedFile {
    pub path: String,
    pub mime: &'static str,
}

/// `GET /jobs/:id/velocity`: the velocity map of a completed job.
pub fn get_velocity(job: Option<Job>) -> (r: Result<ServedFile, AppError>)
    ensures
        match r {
            Ok(file) => completion_error(job) is None && file.path@ == result_path(
                (job->0).work_dir@,
                "velocity.png"@,
            ) && file.mime@ == "image/png"@,
            Err(error) => completion_error(job) == Some(error@),
        },
{
    match completed_job(job) {
        Ok(job) => Ok(
            ServedFile {
                path: join2(job.work_dir.as_str(), "results", "velocity.png"),
                mime: "image/png",
            },
        ),
        Err(error) => Err(error),
    }
}

/// The query of `GET /jobs/:id/timeseries`.
#[derive(Debug)]
pub struct TimeseriesQuery {
    /// The texts of the coordinates.
    pub lat: String,
    pub lon: String,
    /// Output format: "png" (default) or "csv".
    pub format: String,
}

impl TimeseriesQuery {
    /// The format if none is given.
    pub fn default_format() -> (r: String)
        ensures
            r@ == "png"@,
    {
        "png".to_owned()
    }
}

/// The container that makes a time series.
#[derive(Debug)]
pub struct ResultsContainer {
    pub name: String,
    pub image: String,
    pub cmd: Vec<String>,
    pub binds: Vec<String>,
    pub network_mode: &'static str,
}

/// What to do for a time series: run the container, then serve the file.
#[derive(Debug)]
pub struct TimeseriesPlan {
    pub container: ResultsContainer,
    pub file: ServedFile,
}

impl ResultsContainer {
    /// Whether the container makes a time series of the job in the format.
    pub open spec fn serves(
        self,
        job_id: Uuid,
        work_dir: Seq<char>,
        image: Seq<char>,
        query: TimeseriesQuery,
    ) -> bool {
        &&& self.name@ == "sisar-"@ + job_id.text() + "-results"@
        &&& self.image@ == image
        &&& text::texts(self.cmd@) == seq![query.lat@, query.lon@, query.format@]
        &&& text::texts(self.binds@) == seq![work_dir + ":/job:rw"@]
        &&& self.network_mode@ == "none"@
    }
}

/// The container that makes a time series of a job.
pub fn results_container(job_id: Uuid, work_dir: &str, image: &str, query: &TimeseriesQuery) -> (r:
    ResultsContainer)
    ensures
        r.serves(job_id, work_dir@, image@, *query),
{
    let cmd = vec![query.lat.clone(), query.lon.clone(), query.format.clone()];
    let binds = vec![concat2(work_dir, ":/job:rw")];
    assert(text::texts(cmd@) =~= seq![query.lat@, query.lon@, query.format@]);
    assert(text::texts(binds@) =~= seq![work_dir@ + ":/job:rw"@]);
    ResultsContainer {
        name: concat3("sisar-", job_id.to_text().as_str(), "-results"),
        image: image.to_owned(),
        cmd,
        binds,
        network_mode: "none",
    }
}

impl TimeseriesPlan {
    /// Whether the plan makes and serves the time series that a query asks for.
    pub open spec fn serves(
        self,
        job_id: Uuid,
        work_dir: Seq<char>,
        image: Seq<char>,
        query: TimeseriesQuery,
    ) -> bool {
        &&& self.container.serves(job_id, work_dir, image, query)
        &&& self.file.path@ == result_path(work_dir, "timeseries."@ + query.format@)
        &&& self.file.mime@ == if query.format@ == "png"@ {
            "image/png"@
        } else {
            "text/csv"@
        }
    }
}

/// What stands in the way of a time series. The job is looked at before the
/// format.
pub open spec fn timeseries_error(job: Option<Job>, format: Seq<char>) -> Option<AppErrorModel> {
    match completion_error(job) {
        Some(error) => Some(error),
        None => if format == "png"@ || format == "csv"@ {
            None
        } else {
            Some(
                AppErrorModel::Validation(
                    "unsupported format '"@ + format + "'; use 'png' or 'csv'"@,
                ),
            )
        },
    }
}

/// `GET /jobs/:id/timeseries?lat=<lat>&lon=<lon>&format=<png|csv>`
///
/// The results container reads the MintPy HDF5 output and writes a PNG or CSV to
/// `{work_dir}/results/timeseries.<ext>`, which is then served.
pub fn get_timeseries(job_id: Uuid, job: Option<Job>, query: &TimeseriesQuery, image: &str) -> (r:
    Result<TimeseriesPlan, AppError>)
    ensures
        match r {
            Ok(plan) => {
                &&& timeseries_error(job, query.format@) is None
                &&& plan.serves(job_id, (job->0).work_dir@, image@, *query)
            },
            Err(error) => timeseries_error(job, query.format@) == Some(error@),
        },
{
    let job = match completed_job(job) {
        Ok(job) => job,
        Err(error) => {
            return Err(error);
        },
    };
    let mime = if text_eq(query.format.as_str(), "png") {
        "image/png"
    } else if text_eq(query.format.as_str(), "csv") {
        "text/csv"
    } else {
        return Err(
            AppError::Validation(
                concat3(
                    "unsupported format '",
                    query.format.as_str(),
                    "'; use 'png' or 'csv'",
                ),
            ),
        );
    };
    let name = concat2("timeseries.", query.format.as_str());
    Ok(
        TimeseriesPlan {
            container: results_container(job_id, job.work_dir.as_str(), image, query),
            file: ServedFile {
                path: join2(job.work_dir.as_str(), "results", name.as_str()),
                mime,
            },
        },
    )
}

// ---------------------------------------------------------------------------
// The run of the results container
// ---------------------------------------------------------------------------

/// How the wait for a container ended.
#[derive(Debug)]
pub enum WaitEnd {
    /// The container exited with this code; -1 where it told none.
    Exited(i64),
    /// Waiting failed with this error.
    Failed(String),
}

/// What a `WaitEnd` says.
pub enum WaitEndModel {
    Exited(int),
    Failed(Seq<char>),
}

impl View for WaitEnd {
    type V = WaitEndModel;

    open spec fn view(&self) -> WaitEndModel {
        match *self {
            WaitEnd::Exited(code) => WaitEndModel::Exited(code as int),
            WaitEnd::Failed(error) => WaitEndModel::Failed(error@),
        }
    }
}

/// How far the run of a results container has come.
#[derive(Debug)]
pub enum ContainerRun {
    /// The container is being created.
    Creating,
    /// The container is being started.
    Starting,
    /// The container runs.
    Waiting,
    /// The container is being removed.
    Removing(WaitEnd),
    /// It is over.
    Done,
}

/// What a `ContainerRun` says.
pub enum ContainerRunModel {
    Creating,
    Starting,
    Waiting,
    Removing(WaitEndModel),
    Done,
}

impl View for ContainerRun {
    type V = ContainerRunModel;

    open spec fn view(&self) -> ContainerRunModel {
        match *self {
            ContainerRun::Creating => ContainerRunModel::Creating,
            ContainerRun::Starting => ContainerRunModel::Starting,
            ContainerRun::Waiting => ContainerRunModel::Waiting,
            ContainerRun::Removing(end) => ContainerRunModel::Removing(end@),
            ContainerRun::Done => ContainerRunModel::Done,
        }
    }
}

/// What has happened.
#[derive(Debug)]
pub enum ContainerEvent {
    /// What was to be done is done.
    Done,
    /// What was to be done failed with this error.
    Failed(String),
    /// The container exited with this code, if it told one.
    Exited(Option<i64>),
}

/// What a `ContainerEvent` says.
pub enum ContainerEventModel {
    Done,
    Failed(Seq<char>),
    Exited(Option<i64>),
}

impl View for ContainerEvent {
    type V = ContainerEventModel;

    open spec fn view(&self) -> ContainerEventModel {
        match *self {
            ContainerEvent::Done => ContainerEventModel::Done,
            ContainerEvent::Failed(error) => ContainerEventModel::Failed(error@),
            ContainerEvent::Exited(code) => ContainerEventModel::Exited(code),
        }
    }
}

/// What to do next.
#[derive(Debug)]
pub enum ContainerAction {
    /// Create the container.
    Create,
    /// Start the container.
    Start,
    /// Wait until the container does not run any more.
    Wait,
    /// Remove the container by force.
    Remove,
    /// Answer with this.
    Finish(Result<(), AppError>),
}

/// What a `ContainerAction` says; a `Finish` says which error it gives, if any.
pub enum ContainerActionModel {
    Create,
    Start,
    Wait,
    Remove,
    Finish(Option<AppErrorModel>),
}

impl View for ContainerAction {
    type V = ContainerActionModel;

    open spec fn view(&self) -> ContainerActionModel {
        match *self {
            ContainerAction::Create => ContainerActionModel::Create,
            ContainerAction::Start => ContainerActionModel::Start,
            ContainerAction::Wait => ContainerActionModel::Wait,
            ContainerAction::Remove => ContainerActionModel::Remove,
            ContainerAction::Finish(Ok(())) => ContainerActionModel::Finish(None),
            ContainerAction::Finish(Err(error)) => ContainerActionModel::Finish(Some(error@)),
        }
    }
}

/// The error that the end of a wait is answered with, if it is: none for the
/// exit code 0.
pub open spec fn end_error(end: WaitEndModel) -> Option<AppErrorModel> {
    match end {
        WaitEndModel::Exited(code) => if code == 0 {
            None
        } else {
            Some(
                AppErrorModel::Internal(
                    "results container exited with code "@ + number::decimal(code),
                ),
            )
        },
        WaitEndModel::Failed(error) => Some(
            AppErrorModel::Internal("wait results container: "@ + error),
        ),
    }
}

/// What is answered once the results container has been removed, where `end`
/// tells how the wait for it ended.
pub fn run_results_container(end: &WaitEnd) -> (r: Result<(), AppError>)
    ensures
        match r {
            Ok(()) => end_error(end@) is None,
            Err(error) => end_error(end@) == Some(error@),
        },
{
    match end {
        WaitEnd::Exited(code) => {
            if *code == 0 {
                Ok(())
            } else {
                Err(
                    AppError::Internal(
                        concat2("results container exited with code ", decimal_i64(*code).as_str()),
                    ),
                )
            }
        },
        WaitEnd::Failed(error) => Err(
            AppError::Internal(concat2("wait results container: ", error.as_str())),
        ),
    }
}

impl ContainerRunModel {
    /// Whether an event is one that is waited for.
    pub open spec fn expects(self, event: ContainerEventModel) -> bool {
        match self {
            Self::Creating | Self::Starting | Self::Removing(_) => !(event is Exited),
            Self::Waiting => !(event is Done),
            Self::Done => false,
        }
    }

    /// How far the run has come after an event, and what is to be done. Once the
    /// container has been started it is always removed before the answer.
    pub open spec fn after(self, event: ContainerEventModel) -> (
        ContainerRunModel,
        ContainerActionModel,
    ) {
        match (self, event) {
            (Self::Creating, ContainerEventModel::Done) => (
                Self::Starting,
                ContainerActionModel::Start,
            ),
            (Self::Creating, ContainerEventModel::Failed(error)) => (
                Self::Done,
                ContainerActionModel::Finish(
                    Some(AppErrorModel::Internal("create results container: "@ + error)),
                ),
            ),
            (Self::Starting, ContainerEventModel::Done) => (
                Self::Waiting,
                ContainerActionModel::Wait,
            ),
            (Self::Starting, ContainerEventModel::Failed(error)) => (
                Self::Done,
                ContainerActionModel::Finish(
                    Some(AppErrorModel::Internal("start results container: "@ + error)),
                ),
            ),
            (Self::Waiting, ContainerEventModel::Exited(code)) => (
                Self::Removing(
                    WaitEndModel::Exited(
                        match code {
                            Some(code) => code as int,
                            None => -1,
                        },
                    ),
                ),
                ContainerActionModel::Remove,
            ),
            (Self::Waiting, ContainerEventModel::Failed(error)) => (
                Self::Removing(WaitEndModel::Failed(error)),
                ContainerActionModel::Remove,
            ),
            (Self::Removing(end), _) => (
                Self::Done,
                ContainerActionModel::Finish(end_error(end)),
            ),
            _ => (self, ContainerActionModel::Finish(None)),
        }
    }
}

impl ContainerRun {
    /// Begins the run of a results container. The first thing to do is to create
    /// it.
    pub fn start() -> (r: (ContainerRun, ContainerAction))
        ensures
            r.0@ == ContainerRunModel::Creating,
            r.1@ == ContainerActionModel::Create,
    {
        (ContainerRun::Creating, ContainerAction::Create)
    }

    /// Takes an event that is waited for, and says what to do next.
    pub fn step(&mut self, event: ContainerEvent) -> (r: ContainerAction)
        requires
            old(self)@.expects(event@),
        ensures
            (final(self)@, r@) == old(self)@.after(event@),
    {
        let mut run = ContainerRun::Done;
        std::mem::swap(&mut run, self);
        match run {
            ContainerRun::Creating => match event {
                ContainerEvent::Failed(error) => ContainerAction::Finish(
                    Err(AppError::Internal(concat2("create results container: ", error.as_str()))),
                ),
                _ => {
                    *self = ContainerRun::Starting;
                    ContainerAction::Start
                },
            },
            ContainerRun::Starting => match event {
                ContainerEvent::Failed(error) => ContainerAction::Finish(
                    Err(AppError::Internal(concat2("start results container: ", error.as_str()))),
                ),
                _ => {
                    *self = ContainerRun::Waiting;
                    ContainerAction::Wait
                },
            },
            ContainerRun::Waiting => {
                let end = match event {
                    ContainerEvent::Failed(error) => WaitEnd::Failed(error),
                    ContainerEvent::Exited(Some(code)) => WaitEnd::Exited(code),
                    _ => WaitEnd::Exited(-1),
                };
                *self = ContainerRun::Removing(end);
                ContainerAction::Remove
            },
            ContainerRun::Removing(end) => ContainerAction::Finish(run_results_container(&end)),
            ContainerRun::Done => ContainerAction::Finish(Ok(())),
        }
    }
}

/// A container that was started is always removed: whatever the wait for it gave,
/// the next thing is its removal, and only then comes the answer, whether or not
/// the removal failed. The answer is good only for the exit code 0.
pub proof fn started_containers_are_removed(
    waited: ContainerEventModel,
    removed: ContainerEventModel,
)
    requires
        ContainerRunModel::Waiting.expects(waited),
        ContainerRunModel::Waiting.after(waited).0.expects(removed),
    ensures
        ({
            let (removing, first) = ContainerRunModel::Waiting.after(waited);
            let (done, second) = removing.after(removed);
            &&& first == ContainerActionModel::Remove
            &&& done == ContainerRunModel::Done
            &&& second is Finish
            &&& second == ContainerActionModel::Finish(None) <==> waited
                == ContainerEventModel::Exited(Some(0i64))
            &&& waited matches ContainerEventModel::Failed(error) ==> second
                == ContainerActionModel::Finish(
                Some(AppErrorModel::Internal("wait results container: "@ + error)),
            )
        }),
{
}

/// Whether a file can be served, where `exists` says whether it is there.
pub fn serve_file(path: &str, exists: bool) -> (r: Result<(), AppError>)
    ensures
        match r {
            Ok(()) => exists,
            Err(error) => !exists && error@ == AppErrorModel::ResultNotFound(
                "result file not found at "@ + path@,
            ),
        },
{
    if exists {
        Ok(())
    } else {
        Err(AppError::ResultNotFound(concat2("result file not found at ", path)))
    }
}

/// The results containers of different jobs have different names.
pub proof fn results_containers_differ(a: Uuid, b: Uuid)
    requires
        "sisar-"@ + a.text() + "-results"@ == "sisar-"@ + b.text() + "-results"@,
    ensures
        a == b,
{
    let x = "sisar-"@ + a.text();
    let y = "sisar-"@ + b.text();
    let tail = "-results"@;
    assert((x + tail).len() == (y + tail).len());
    assert((x + tail).take(x.len() as int) =~= x);
    assert((y + tail).take(y.len() as int) =~= y);
    assert(x.skip("sisar-"@.len() as int) =~= a.text());
    assert(y.skip("sisar-"@.len() as int) =~= b.text());
    ids::uuid_texts_differ(a, b);
}

/// Results are served exactly of jobs that exist and are completed; a time series in
/// addition only as `png` or `csv`.
pub proof fn only_completed_jobs_have_results(job: Option<Job>, format: Seq<char>)
    ensures
        completion_error(job) is None <==> job is Some && (job->0).state is Completed,
        job is None <==> completion_error(job) == Some(AppErrorModel::JobNotFound),
        timeseries_error(job, format) is None <==> completion_error(job) is None && (format
            == "png"@ || format == "csv"@),
        completion_error(job) is Some ==> timeseries_error(job, format) == completion_error(job)
            && (completion_error(job)->0).status() == 404,
        completion_error(job) is None && timeseries_error(job, format) is Some ==> (
        timeseries_error(job, format)->0).status() == 400,
{
}

/// A result lies in the directory `results` of its job, under its own name.
pub proof fn results_lie_with_their_job(work_dir: Seq<char>, name: Seq<char>)
    requires
        work_dir.len() > 0 && work_dir.last() != '/',
        name.len() > 0 && name[0] != '/',
    ensures
        result_path(work_dir, name) == work_dir + "/results/"@ + name,
{
    reveal_strlit("/");
    reveal_strlit("results");
    reveal_strlit("/results/");
    let dir = paths::joined_path(work_dir, "results"@);
    assert(dir == work_dir + "/"@ + "results"@);
    assert(dir.last() == 's');
    assert(result_path(work_dir, name) =~= work_dir + "/results/"@ + name);
}

/// A time series is made by the image, in the directory of the job alone and without a
/// network, of the latitude, the longitude and the format that were asked for, in this
/// order; what is served is the file of that format, as what it is.
pub proof fn series_are_made_as_asked(
    plan: TimeseriesPlan,
    job_id: Uuid,
    work_dir: Seq<char>,
    image: Seq<char>,
    query: TimeseriesQuery,
)
    requires
        plan.serves(job_id, work_dir, image, query),
        query.format@ == "png"@ || query.format@ == "csv"@,
        work_dir.len() > 0 && work_dir.last() != '/',
    ensures
        plan.container.image@ == image,
        plan.container.network_mode@ == "none"@,
        plan.container.binds.len() == 1,
        plan.container.binds[0]@ == work_dir + ":/job:rw"@,
        plan.container.cmd.len() == 3,
        plan.container.cmd[0]@ == query.lat@,
        plan.container.cmd[1]@ == query.lon@,
        plan.container.cmd[2]@ == query.format@,
        query.format@ == "png"@ ==> plan.file.path@ == work_dir + "/results/timeseries.png"@
            && plan.file.mime@ == "image/png"@,
        query.format@ == "csv"@ ==> plan.file.path@ == work_dir + "/results/timeseries.csv"@
            && plan.file.mime@ == "text/csv"@,
{
    reveal_strlit("png");
    reveal_strlit("csv");
    reveal_strlit("timeseries.");
    reveal_strlit("/results/");
    reveal_strlit("/results/timeseries.png");
    reveal_strlit("/results/timeseries.csv");
    assert("png"@[0] != "csv"@[0]);
    let cmd = text::texts(plan.container.cmd@);
    let binds = text::texts(plan.container.binds@);
    assert(cmd.len() == 3 && binds.len() == 1);
    assert(cmd[0] == query.lat@ && cmd[1] == query.lon@ && cmd[2] == query.format@);
    assert(binds[0] == work_dir + ":/job:rw"@);
    let name = "timeseries."@ + query.format@;
    assert(name[0] == 't');
    results_lie_with_their_job(work_dir, name);
    if query.format@ == "png"@ {
        assert(work_dir + "/results/"@ + name =~= work_dir + "/results/timeseries.png"@);
    } else {
        assert(work_dir + "/results/"@ + name =~= work_dir + "/results/timeseries.csv"@);
    }
}

} // verus!
