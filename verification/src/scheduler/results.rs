//! The scheduler of result requests.
//!
//! Every queued request is matched with the directory of its finished job or of
//! its demo, and a container makes the result there. Resource management for
//! result containers is intentionally unconstrained: they are lightweight (HDF5
//! read + plot) and are not tracked in the resource pool.
use vstd::prelude::*;

use crate::float64;
use crate::float64::{Float64, Number, NumberModel, ZERO_BITS};
use crate::ids::Uuid;
use crate::paths;
use crate::paths::join2;
use crate::scheduler::config::SystemConfig;
use crate::scheduler::definition::{
    ContainerImages, ContainerModel, ContainerSpec, ResourceRequirement, WorkflowStep,
    CONTAINER_WORKDIR,
};
use crate::scheduler::pool::ActiveSet;
use crate::scheduler::runner::StepOutcome;
use crate::scheduler::scheduler::free_slots;
use crate::shared::job::{Job, JobState};
use crate::shared::queries::{complete_result_request, fail_result_request, ResultUpdate};
use crate::shared::result::{ResultRequest, ResultState, ResultType};
use crate::text;
use crate::text::{concat2, concat3};

verus! {

/// The scheduler of result requests.
#[derive(Debug)]
pub struct ResultsScheduler {
    pub system_cfg: SystemConfig,
    pub images: ContainerImages,
    /// The requests currently being processed (in-flight).
    pub active: ActiveSet,
}

/// What is done about a claimed request, as far as its row says.
#[derive(Debug)]
pub enum RequestPlan {
    /// Nothing: it is already in flight.
    Skip,
    /// A result is made in this directory.
    UseDirectory(String),
    /// The parent job has to be looked at.
    FetchJob(Uuid),
    /// The request fails with this message.
    Fail(&'static str),
}

/// What is done about a request whose parent job was looked at.
#[derive(Debug)]
pub enum ParentPlan {
    /// A result is made in this directory.
    UseDirectory(String),
    /// The request fails with this message.
    Fail(&'static str),
    /// Nothing yet: the parent job is not completed.
    Defer,
}

/// What is done about a request whose parent job was looked at: only completed
/// jobs have results.
pub fn check_parent(job: Option<Job>) -> (r: ParentPlan)
    ensures
        match (job, r) {
            (None, ParentPlan::Fail(message)) => message@ == "parent job not found"@,
            (Some(job), ParentPlan::UseDirectory(dir)) => job.state is Completed && dir@
                == job.work_dir@,
            (Some(job), ParentPlan::Defer) => !(job.state is Completed),
            _ => false,
        },
{
    match job {
        None => ParentPlan::Fail("parent job not found"),
        Some(job) => {
            if matches!(job.state, JobState::Completed) {
                ParentPlan::UseDirectory(job.work_dir)
            } else {
                ParentPlan::Defer
            }
        },
    }
}

// ---------------------------------------------------------------------------
// The container
// ---------------------------------------------------------------------------

/// The arguments of the results container, where `output` is the file to write.
pub open spec fn result_args(
    result_type: ResultType,
    lat: Option<NumberModel>,
    lon: Option<NumberModel>,
    output: Seq<char>,
) -> Option<Seq<Seq<char>>> {
    match result_type {
        ResultType::Velocity => Some(seq!["velocity"@, "--output"@, output]),
        ResultType::Timeseries => match (lat, lon) {
            (Some(lat), Some(lon)) => Some(
                seq!["timeseries"@, "--lat"@, lat.text, "--lon"@, lon.text, "--output"@, output],
            ),
            _ => None,
        },
        _ => None,
    }
}

/// The arguments of the results container.
pub fn write_result_args(
    result_type: ResultType,
    lat: &Option<Number>,
    lon: &Option<Number>,
    output: &str,
) -> (r: Option<Vec<String>>)
    ensures
        match (r, result_args(
            result_type,
            float64::opt_number(*lat),
            float64::opt_number(*lon),
            output@,
        )) {
            (Some(args), Some(expected)) => text::texts(args@) == expected,
            (None, None) => true,
            _ => false,
        },
{
    match result_type {
        ResultType::Velocity => {
            let args = vec!["velocity".to_owned(), "--output".to_owned(), output.to_owned()];
            assert(text::texts(args@) =~= seq!["velocity"@, "--output"@, output@]);
            Some(args)
        },
        ResultType::Timeseries => match (lat, lon) {
            (Some(lat), Some(lon)) => {
                let args = vec![
                    "timeseries".to_owned(),
                    "--lat".to_owned(),
                    lat.text.clone(),
                    "--lon".to_owned(),
                    lon.text.clone(),
                    "--output".to_owned(),
                    output.to_owned(),
                ];
                assert(text::texts(args@) =~= seq![
                    "timeseries"@,
                    "--lat"@,
                    lat.text@,
                    "--lon"@,
                    lon.text@,
                    "--output"@,
                    output@,
                ]);
                Some(args)
            },
            _ => None,
        },
        _ => None,
    }
}

/// Where a result goes, as seen inside the container.
pub open spec fn container_output(name: Seq<char>) -> Seq<char> {
    paths::joined_path(paths::joined_path("/job"@, "results"@), name)
}

/// The container that makes a result in the job directory, without limits on
/// its resources. There is none where the parameters lack a coordinate or the
/// type is not implemented.
pub open spec fn result_container(
    result_type: ResultType,
    lat: Option<NumberModel>,
    lon: Option<NumberModel>,
    work_dir: Seq<char>,
    name: Seq<char>,
    image: Seq<char>,
) -> Option<ContainerModel> {
    match result_args(result_type, lat, lon, container_output(name)) {
        Some(args) => Some(
            ContainerModel {
                image,
                args,
                host_archive: work_dir,
                host_workdir: work_dir,
                container_workdir: "/job"@,
                resources: ResourceRequirement {
                    cpu_cores: 0,
                    ram_gb: Float64 { bits: ZERO_BITS },
                },
            },
        ),
        None => None,
    }
}

/// The container that makes a result in the job directory.
pub fn result_container_spec(
    result_type: ResultType,
    lat: &Option<Number>,
    lon: &Option<Number>,
    work_dir: &str,
    name: &str,
    image: &str,
) -> (r: Option<ContainerSpec>)
    ensures
        match (r, result_container(
            result_type,
            float64::opt_number(*lat),
            float64::opt_number(*lon),
            work_dir@,
            name@,
            image@,
        )) {
            (Some(spec), Some(expected)) => spec@ == expected,
            (None, None) => true,
            _ => false,
        },
{
    let output = join2(CONTAINER_WORKDIR, "results", name);
    match write_result_args(result_type, lat, lon, output.as_str()) {
        Some(args) => Some(
            ContainerSpec {
                image: image.to_owned(),
                args,
                host_archive: work_dir.to_owned(),
                host_workdir: work_dir.to_owned(),
                container_workdir: CONTAINER_WORKDIR.to_owned(),
                resources: ResourceRequirement {
                    cpu_cores: 0,
                    ram_gb: Float64 { bits: ZERO_BITS },
                },
            },
        ),
        None => None,
    }
}

/// The message of a request of a type that makes no file.
pub open spec fn not_implemented(result_type: ResultType) -> Seq<char> {
    "result type '"@ + result_type.name() + "' is not yet implemented"@
}

/// The step that makes the result of a request in a directory.
pub fn result_step(request: &ResultRequest, work_dir: &str, image: &str) -> (r: Result<
    WorkflowStep,
    String,
>)
    ensures
        match r {
            Ok(step) => {
                &&& request.output_name() is Some
                &&& Some(step@.spec) == result_container(
                    request.result_type,
                    request.param("lat"@),
                    request.param("lon"@),
                    work_dir@,
                    request.output_name()->0,
                    image@,
                )
                &&& step@.label == "results."@ + request.result_type.name()
                &&& step@.next_state is Completed
            },
            Err(message) => request.output_name() is None && message@ == not_implemented(
                request.result_type,
            ),
        },
{
    let name = match request.output_filename() {
        Some(name) => name,
        None => {
            return Err(
                concat3(
                    "result type '",
                    request.result_type.as_str(),
                    "' is not yet implemented",
                ),
            );
        },
    };
    let lat = request.read_param("lat");
    let lon = request.read_param("lon");
    match result_container_spec(
        request.result_type,
        &lat,
        &lon,
        work_dir,
        name.as_str(),
        image,
    ) {
        Some(spec) => Ok(
            WorkflowStep {
                label: concat2("results.", request.result_type.as_str()),
                next_state: JobState::Completed,
                spec,
            },
        ),
        None => Err(
            concat3(
                "could not build container spec for result type '",
                request.result_type.as_str(),
                "'",
            ),
        ),
    }
}

// ---------------------------------------------------------------------------
// The scheduler
// ---------------------------------------------------------------------------

/// Whether the update says what becomes of a request whose container ended.
pub open spec fn ends_request(update: ResultUpdate, outcome: StepOutcome) -> bool {
    match outcome {
        StepOutcome::Success => update.state@ == ResultState::Completed.name() && update.error
            == Some(None::<String>),
        StepOutcome::Failed(error) => update.state@ == ResultState::Failed.name() && update.error
            is Some && text::opt_text(update.error->0) == Some(error@.text()),
    }
}

impl ResultsScheduler {
    /// Whether the books are in order.
    pub open spec fn wf(self) -> bool {
        self.active.wf()
    }

    /// A scheduler without requests in flight.
    pub fn new(system_cfg: SystemConfig) -> (r: Self)
        ensures
            r.wf(),
            r.system_cfg == system_cfg,
            r.images.from_config(system_cfg),
            r.active@ == Set::<Uuid>::empty(),
    {
        let images = ContainerImages::new(&system_cfg);
        Self { system_cfg, images, active: ActiveSet::new() }
    }

    /// How many requests to claim at most: the same limit that caps containers
    /// caps requests in flight too.
    pub fn claim_limit(&self) -> (r: i64)
        requires
            self.wf(),
        ensures
            0 <= r,
            r == 0 || self.active@.len() + r <= self.system_cfg.scheduler.max_concurrent_containers,
            r == 0 || r == i64::MAX || self.active@.len() + r
                == self.system_cfg.scheduler.max_concurrent_containers,
            r == 0 ==> self.active@.len() >= self.system_cfg.scheduler.max_concurrent_containers,
    {
        free_slots(self.system_cfg.scheduler.max_concurrent_containers, self.active.len())
    }

    /// What is done about a claimed request. For demo result requests `work_dir`
    /// is populated by the API server (e.g. `/sisar/demos/<name>`). For regular
    /// job result requests it is absent and the parent job is looked at.
    pub fn plan(&self, request: &ResultRequest) -> (r: RequestPlan)
        ensures
            match r {
                RequestPlan::Skip => self.active@.contains(request.id),
                RequestPlan::UseDirectory(dir) => !self.active@.contains(request.id)
                    && text::opt_text(request.work_dir) == Some(dir@),
                RequestPlan::FetchJob(id) => !self.active@.contains(request.id)
                    && request.work_dir is None && request.job_id == Some(id),
                RequestPlan::Fail(message) => !self.active@.contains(request.id)
                    && request.work_dir is None && request.job_id is None && message@
                    == "no job_id and no work_dir"@,
            },
    {
        if self.active.contains(request.id) {
            return RequestPlan::Skip;
        }
        match &request.work_dir {
            Some(dir) => RequestPlan::UseDirectory(dir.clone()),
            None => match request.job_id {
                Some(id) => RequestPlan::FetchJob(id),
                None => RequestPlan::Fail("no job_id and no work_dir"),
            },
        }
    }

    /// Marks a request as in flight.
    pub fn begin(&mut self, id: Uuid)
        requires
            old(self).wf(),
        ensures
            final(self).wf(),
            final(self).system_cfg == old(self).system_cfg,
            final(self).images == old(self).images,
            final(self).active@ == old(self).active@.insert(id),
    {
        self.active.insert(id);
    }

    /// Takes a request whose container ended off those in flight, and says what
    /// to write to the database.
    pub fn finish(&mut self, id: Uuid, outcome: &StepOutcome) -> (r: ResultUpdate)
        requires
            old(self).wf(),
        ensures
            final(self).wf(),
            final(self).system_cfg == old(self).system_cfg,
            final(self).images == old(self).images,
            final(self).active@ == old(self).active@.remove(id),
            ends_request(r, *outcome),
    {
        self.active.remove(id);
        match outcome {
            StepOutcome::Success => complete_result_request(),
            StepOutcome::Failed(error) => fail_result_request(error.message().as_str()),
        }
    }
}

// ---------------------------------------------------------------------------
// Laws
// ---------------------------------------------------------------------------

/// A result is made in the directory of its job or demo, which the container sees at
/// `/job`, and goes to the results directory there under the name that it is looked
/// for by; the container is told which result to make and, for a time series, for
/// which point: the latitude as latitude, the longitude as longitude.
pub proof fn results_are_made_where_they_are_looked_for(
    result_type: ResultType,
    lat: Option<NumberModel>,
    lon: Option<NumberModel>,
    work_dir: Seq<char>,
    name: Seq<char>,
    image: Seq<char>,
)
    requires
        name.len() > 0 && name[0] != '/',
    ensures
        result_container(result_type, lat, lon, work_dir, name, image) is Some <==> result_type
            is Velocity || (result_type is Timeseries && lat is Some && lon is Some),
        result_container(result_type, lat, lon, work_dir, name, image) matches Some(spec) ==> {
            &&& spec.image == image
            &&& spec.host_workdir == work_dir
            &&& spec.container_workdir == "/job"@
            &&& spec.args[0] == result_type.name()
            &&& spec.args[spec.args.len() - 2] == "--output"@
            &&& spec.args[spec.args.len() - 1] == "/job/results/"@ + name
            &&& result_type is Velocity ==> spec.args.len() == 3
            &&& result_type is Timeseries ==> {
                &&& spec.args.len() == 7
                &&& spec.args[1] == "--lat"@ && spec.args[2] == (lat->0).text
                &&& spec.args[3] == "--lon"@ && spec.args[4] == (lon->0).text
            }
        },
{
    reveal_strlit("/job");
    reveal_strlit("results");
    reveal_strlit("/");
    reveal_strlit("/job/results/");
    let dir = paths::joined_path("/job"@, "results"@);
    assert(dir =~= "/job"@ + "/"@ + "results"@);
    assert(dir.last() == 's');
    assert(container_output(name) =~= "/job/results/"@ + name);
}

/// What is written of a request whose container ended: `completed` without an error
/// where it succeeded, `failed` with the text of the error where it did not.
pub proof fn outcomes_are_written(update: ResultUpdate, outcome: StepOutcome)
    requires
        ends_request(update, outcome),
    ensures
        update.state@ == "completed"@ <==> outcome is Success,
        update.state@ == "failed"@ <==> outcome is Failed,
        outcome is Success ==> update.error == Some(None::<String>),
        outcome matches StepOutcome::Failed(error) ==> update.error is Some && text::opt_text(
            update.error->0,
        ) == Some(error@.text()),
{
    reveal_strlit("completed");
    reveal_strlit("failed");
    assert("completed"@.len() == 9);
    assert("failed"@.len() == 6);
}

} // verus!
