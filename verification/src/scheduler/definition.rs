//! What to run next for a job: the containers of each workflow, in order.
use vstd::prelude::*;

use crate::float64::{Float64, ZERO_BITS};
use crate::scheduler::config::{StepOverride, StepResourceConfig, SystemConfig, WorkflowConfig};
use crate::shared::job::{Job, JobState, JobStateModel};
use crate::shared::stage::{IsceStage, MiaplpyStage, MintpyStage, ResourceTier};
use crate::text;
use crate::text::{concat2, text_eq};

verus! {

// ---------------------------------------------------------------------------
// Types
// ---------------------------------------------------------------------------

/// Resolved CPU and RAM requirement for a single container invocation.
///
/// Produced by resolving a step's tier against the workflow config, with any
/// per-step override applied on top. Once resolved, this value is passed
/// directly to the resource pool and then to the Docker runner as container
/// resource limits.
#[derive(Debug, Clone, Copy, PartialEq, Eq, Structural)]
pub struct ResourceRequirement {
    pub cpu_cores: u32,
    pub ram_gb: Float64,
}

impl ResourceRequirement {
    /// The requirement that a configuration entry states.
    pub open spec fn of(config: StepResourceConfig) -> ResourceRequirement {
        ResourceRequirement { cpu_cores: config.cpu_cores, ram_gb: config.ram_gb }
    }
}

impl From<&StepResourceConfig> for ResourceRequirement {
    fn from(c: &StepResourceConfig) -> (r: Self) {
        Self { cpu_cores: c.cpu_cores, ram_gb: c.ram_gb }
    }
}

impl vstd::std_specs::convert::FromSpecImpl<&StepResourceConfig> for ResourceRequirement {
    open spec fn obeys_from_spec() -> bool {
        true
    }

    open spec fn from_spec(c: &StepResourceConfig) -> Self {
        ResourceRequirement::of(*c)
    }
}

/// Everything the Docker runner needs to launch a single processing step.
#[derive(Debug)]
pub struct ContainerSpec {
    /// The Docker image to run (e.g. `"sisar/isce2:latest"`).
    pub image: String,
    /// Command-line arguments passed to the container's entrypoint after the
    /// image name. For ISCE2 this is the snake_case stage name; for the
    /// download container this is empty (it reads the spec file directly).
    pub args: Vec<String>,
    pub host_archive: String,
    /// Absolute path on the host that will be bind-mounted into the container
    /// at the path defined by `container_workdir`. This is always the job's
    /// working directory.
    pub host_workdir: String,
    /// Mount point inside the container where the job directory appears.
    pub container_workdir: String,
    /// Resolved resource limits to apply to this container.
    pub resources: ResourceRequirement,
}

/// What a `ContainerSpec` says.
#[verifier::ext_equal]
pub struct ContainerModel {
    pub image: Seq<char>,
    pub args: Seq<Seq<char>>,
    pub host_archive: Seq<char>,
    pub host_workdir: Seq<char>,
    pub container_workdir: Seq<char>,
    pub resources: ResourceRequirement,
}

impl View for ContainerSpec {
    type V = ContainerModel;

    open spec fn view(&self) -> ContainerModel {
        ContainerModel {
            image: self.image@,
            args: text::texts(self.args@),
            host_archive: self.host_archive@,
            host_workdir: self.host_workdir@,
            container_workdir: self.container_workdir@,
            resources: self.resources,
        }
    }
}

/// A single dispatchable unit of work: a fully described container invocation
/// derived from a job's current state.
///
/// The scheduler calls `step_for_state()` once per dispatch cycle per job,
/// and passes the resulting `WorkflowStep` to the runner.
#[derive(Debug)]
pub struct WorkflowStep {
    /// Human-readable label used in log file names and container names
    /// (e.g. `"isce2.phase_unwrap"`, `"download"`).
    pub label: String,
    /// The next `JobState` to write to the DB if this step succeeds.
    /// Computed eagerly so the scheduler never has to re-derive it after the
    /// container exits.
    pub next_state: JobState,
    /// Container invocation for this step.
    pub spec: ContainerSpec,
}

/// What a `WorkflowStep` says.
pub struct StepModel {
    pub label: Seq<char>,
    pub next_state: JobStateModel,
    pub spec: ContainerModel,
}

impl View for WorkflowStep {
    type V = StepModel;

    open spec fn view(&self) -> StepModel {
        StepModel { label: self.label@, next_state: self.next_state@, spec: self.spec@ }
    }
}

/// Resolved image tags for all processing containers. Built once at startup
/// from `SystemConfig::containers` and passed through to step constructors.
#[derive(Debug)]
pub struct ContainerImages {
    pub download: String,
    pub isce2: String,
    pub mintpy: String,
    pub miaplpy: String,
    pub results: String,
}

impl ContainerImages {
    /// Whether the images are those of the configuration.
    pub open spec fn from_config(self, config: SystemConfig) -> bool {
        &&& self.download@ == config.containers.download@
        &&& self.isce2@ == config.containers.isce2@
        &&& self.mintpy@ == config.containers.mintpy@
        &&& self.miaplpy@ == config.containers.miaplpy@
        &&& self.results@ == config.containers.results@
    }

    /// The images of the configuration.
    pub fn new(config: &SystemConfig) -> (r: ContainerImages)
        ensures
            r.from_config(*config),
    {
        ContainerImages {
            download: config.containers.download.clone(),
            isce2: config.containers.isce2.clone(),
            mintpy: config.containers.mintpy.clone(),
            miaplpy: config.containers.miaplpy.clone(),
            results: config.containers.results.clone(),
        }
    }
}

/// Mount point inside every processing container where the job directory
/// appears. Containers read their spec files and write outputs relative to
/// this path.
pub const CONTAINER_WORKDIR: &'static str = "/job";

// ---------------------------------------------------------------------------
// Resource resolution
// ---------------------------------------------------------------------------

/// The override for a stage, if there is one.
pub open spec fn override_for(overrides: Seq<StepOverride>, stage: Seq<char>) -> Option<
    StepResourceConfig,
>
    decreases overrides.len(),
{
    if overrides.len() == 0 {
        None
    } else if overrides[0].stage@ == stage {
        Some(overrides[0].resources)
    } else {
        override_for(overrides.drop_first(), stage)
    }
}

/// The resources of a stage: those of its override, else those of its tier.
pub open spec fn resources_of(
    stage: Seq<char>,
    tier: ResourceTier,
    overrides: Seq<StepOverride>,
    cfg: WorkflowConfig,
) -> ResourceRequirement {
    match override_for(overrides, stage) {
        Some(config) => ResourceRequirement::of(config),
        None => ResourceRequirement::of(
            match tier {
                ResourceTier::Light => cfg.tiers.light,
                ResourceTier::Medium => cfg.tiers.medium,
                ResourceTier::Heavy => cfg.tiers.heavy,
            },
        ),
    }
}

/// Resolves the resource requirement for a step by checking for a per-step
/// override first, then falling back to the tier default.
pub fn resolve_resources(
    stage_key: &str,
    tier: ResourceTier,
    overrides: &Vec<StepOverride>,
    cfg: &WorkflowConfig,
) -> (r: ResourceRequirement)
    ensures
        r == resources_of(stage_key@, tier, overrides@, *cfg),
{
    assert(overrides@.skip(0) =~= overrides@);
    for i in 0..overrides.len()
        invariant
            override_for(overrides@, stage_key@) == override_for(
                overrides@.skip(i as int),
                stage_key@,
            ),
    {
        assert(overrides@.skip(i as int).drop_first() =~= overrides@.skip(i + 1));
        if text_eq(overrides[i].stage.as_str(), stage_key) {
            return ResourceRequirement::from(&overrides[i].resources);
        }
    }
    match tier {
        ResourceTier::Light => ResourceRequirement::from(&cfg.tiers.light),
        ResourceTier::Medium => ResourceRequirement::from(&cfg.tiers.medium),
        ResourceTier::Heavy => ResourceRequirement::from(&cfg.tiers.heavy),
    }
}

// ---------------------------------------------------------------------------
// Steps
// ---------------------------------------------------------------------------

/// A step that runs a container in the job directory.
pub open spec fn step_model(
    label: Seq<char>,
    next_state: JobStateModel,
    image: Seq<char>,
    args: Seq<Seq<char>>,
    host_archive: Seq<char>,
    work_dir: Seq<char>,
    resources: ResourceRequirement,
) -> StepModel {
    StepModel {
        label,
        next_state,
        spec: ContainerModel {
            image,
            args,
            host_archive,
            host_workdir: work_dir,
            container_workdir: "/job"@,
            resources,
        },
    }
}

/// The step that downloads the images.
pub open spec fn download_model(
    archive: Seq<char>,
    work_dir: Seq<char>,
    cfg: WorkflowConfig,
    images: ContainerImages,
) -> StepModel {
    step_model(
        "download"@,
        JobStateModel::Downloading,
        images.download@,
        Seq::empty(),
        archive,
        work_dir,
        ResourceRequirement::of(cfg.download),
    )
}

/// The step that runs an ISCE2 stage.
pub open spec fn isce_model(
    stage: IsceStage,
    work_dir: Seq<char>,
    cfg: WorkflowConfig,
    images: ContainerImages,
) -> StepModel {
    step_model(
        "isce2."@ + stage.name(),
        JobStateModel::IsceProcessing { stage },
        images.isce2@,
        seq![stage.name()],
        work_dir,
        work_dir,
        resources_of(stage.name(), stage.tier(), cfg.isce2_overrides@, cfg),
    )
}

/// The step that runs a MintPy stage.
pub open spec fn mintpy_model(
    stage: MintpyStage,
    work_dir: Seq<char>,
    cfg: WorkflowConfig,
    images: ContainerImages,
) -> StepModel {
    step_model(
        "mintpy."@ + stage.name(),
        JobStateModel::MintpyProcessing { stage },
        images.mintpy@,
        seq![stage.name()],
        work_dir,
        work_dir,
        resources_of(stage.name(), stage.tier(), cfg.mintpy_overrides@, cfg),
    )
}

/// The step without a container that ends a job.
pub open spec fn bridge_model(work_dir: Seq<char>) -> StepModel {
    step_model(
        "complete"@,
        JobStateModel::Completed,
        ""@,
        Seq::empty(),
        work_dir,
        work_dir,
        ResourceRequirement { cpu_cores: 0, ram_gb: Float64 { bits: ZERO_BITS } },
    )
}

/// Whether a workflow continues with MintPy after ISCE2.
pub open spec fn uses_mintpy(workflow: Seq<char>) -> bool {
    workflow == "sbas"@ || workflow == "ps_insar"@ || workflow == "timeseries"@
}

/// Whether `step` is what follows for a job.
pub open spec fn follows(
    step: Option<StepModel>,
    job: Job,
    cfg: WorkflowConfig,
    images: ContainerImages,
    archive: Seq<char>,
) -> bool {
    let work_dir = job.work_dir@;
    match job.state@ {
        JobStateModel::Queued => step == Some(download_model(archive, work_dir, cfg, images)),
        JobStateModel::Downloading => exists|first: IsceStage|
            first.index() == 0 && step == Some(#[trigger] isce_model(first, work_dir, cfg, images)),
        JobStateModel::IsceProcessing { stage } => if stage.index() < 15 {
            exists|next: IsceStage|
                #[trigger] stage.precedes(next) && step == Some(
                    isce_model(next, work_dir, cfg, images),
                )
        } else if uses_mintpy(job.workflow@) {
            exists|first: MintpyStage|
                first.index() == 0 && step == Some(
                    #[trigger] mintpy_model(first, work_dir, cfg, images),
                )
        } else {
            step == Some(bridge_model(work_dir))
        },
        JobStateModel::MintpyProcessing { stage } => if stage.index() < 17 {
            exists|next: MintpyStage|
                #[trigger] stage.precedes(next) && step == Some(
                    mintpy_model(next, work_dir, cfg, images),
                )
        } else if job.workflow@ == "ps_insar"@ {
            step == Some(bridge_model(work_dir))
        } else {
            step is None
        },
        _ => step is None,
    }
}

fn make_step(
    label: String,
    next_state: JobState,
    image: &str,
    args: Vec<String>,
    host_archive: &str,
    work_dir: &str,
    resources: ResourceRequirement,
) -> (r: WorkflowStep)
    ensures
        r@ == step_model(
            label@,
            next_state@,
            image@,
            text::texts(args@),
            host_archive@,
            work_dir@,
            resources,
        ),
{
    WorkflowStep {
        label,
        next_state,
        spec: ContainerSpec {
            image: image.to_owned(),
            args,
            host_archive: host_archive.to_owned(),
            host_workdir: work_dir.to_owned(),
            container_workdir: CONTAINER_WORKDIR.to_owned(),
            resources,
        },
    }
}

fn download_step(
    archive_dir: &str,
    job_workdir: &str,
    workflow_cfg: &WorkflowConfig,
    images: &ContainerImages,
) -> (r: WorkflowStep)
    ensures
        r@ == download_model(archive_dir@, job_workdir@, *workflow_cfg, *images),
{
    let resources = ResourceRequirement::from(&workflow_cfg.download);
    let args: Vec<String> = Vec::new();
    assert(text::texts(args@) =~= Seq::<Seq<char>>::empty());
    make_step(
        "download".to_owned(),
        JobState::Downloading,
        images.download.as_str(),
        args,
        archive_dir,
        job_workdir,
        resources,
    )
}

fn isce_step(
    stage: IsceStage,
    job_workdir: &str,
    workflow_cfg: &WorkflowConfig,
    images: &ContainerImages,
) -> (r: WorkflowStep)
    ensures
        r@ == isce_model(stage, job_workdir@, *workflow_cfg, *images),
{
    let resources = resolve_resources(
        stage.as_str(),
        stage.resource_tier(),
        &workflow_cfg.isce2_overrides,
        workflow_cfg,
    );
    let args = vec![stage.as_str().to_owned()];
    assert(text::texts(args@) =~= seq![stage.name()]);
    make_step(
        concat2("isce2.", stage.as_str()),
        JobState::IsceProcessing { stage },
        images.isce2.as_str(),
        args,
        job_workdir,
        job_workdir,
        resources,
    )
}

fn mintpy_step(
    stage: MintpyStage,
    job_workdir: &str,
    workflow_cfg: &WorkflowConfig,
    images: &ContainerImages,
) -> (r: WorkflowStep)
    ensures
        r@ == mintpy_model(stage, job_workdir@, *workflow_cfg, *images),
{
    let resources = resolve_resources(
        stage.as_str(),
        stage.resource_tier(),
        &workflow_cfg.mintpy_overrides,
        workflow_cfg,
    );
    let args = vec![stage.as_str().to_owned()];
    assert(text::texts(args@) =~= seq![stage.name()]);
    make_step(
        concat2("mintpy.", stage.as_str()),
        JobState::MintpyProcessing { stage },
        images.mintpy.as_str(),
        args,
        job_workdir,
        job_workdir,
        resources,
    )
}

fn miaplpy_step(
    stage: MiaplpyStage,
    job_workdir: &str,
    workflow_cfg: &WorkflowConfig,
    images: &ContainerImages,
) -> (r: WorkflowStep)
    ensures
        r@ == step_model(
            "miaplpy."@ + stage.name(),
            JobStateModel::MiaplpyProcessing { stage },
            images.miaplpy@,
            seq![stage.name()],
            job_workdir@,
            job_workdir@,
            resources_of(
                stage.name(),
                ResourceTier::Light,
                workflow_cfg.miaplpy_overrides@,
                *workflow_cfg,
            ),
        ),
{
    let resources = resolve_resources(
        stage.as_str(),
        stage.resource_tier(),
        &workflow_cfg.miaplpy_overrides,
        workflow_cfg,
    );
    let args = vec![stage.as_str().to_owned()];
    assert(text::texts(args@) =~= seq![stage.name()]);
    make_step(
        concat2("miaplpy.", stage.as_str()),
        JobState::MiaplpyProcessing { stage },
        images.miaplpy.as_str(),
        args,
        job_workdir,
        job_workdir,
        resources,
    )
}

/// Temporary bridge step used when a processing suite completes but the next
/// suite's stages are not yet defined. Produces a `Completed` next-state so
/// the job terminates cleanly rather than stalling.
///
/// This step produces no container: a step whose `spec.image` is empty tells
/// the runner to write the next state directly.
fn completion_bridge_step(job_workdir: &str) -> (r: WorkflowStep)
    ensures
        r@ == bridge_model(job_workdir@),
{
    let args: Vec<String> = Vec::new();
    assert(text::texts(args@) =~= Seq::<Seq<char>>::empty());
    make_step(
        "complete".to_owned(),
        JobState::Completed,
        "",
        args,
        job_workdir,
        job_workdir,
        ResourceRequirement { cpu_cores: 0, ram_gb: Float64 { bits: ZERO_BITS } },
    )
}

/// Routes to the appropriate next suite after ISCE2 completes, based on the
/// job's workflow. Returns a completion bridge when the workflow is unknown.
fn post_isce_step(
    workflow: &str,
    job_workdir: &str,
    workflow_cfg: &WorkflowConfig,
    images: &ContainerImages,
) -> (r: WorkflowStep)
    ensures
        if uses_mintpy(workflow@) {
            exists|first: MintpyStage|
                first.index() == 0 && r@ == #[trigger] mintpy_model(
                    first,
                    job_workdir@,
                    *workflow_cfg,
                    *images,
                )
        } else {
            r@ == bridge_model(job_workdir@)
        },
{
    if text_eq(workflow, "sbas") || text_eq(workflow, "ps_insar") || text_eq(
        workflow,
        "timeseries",
    ) {
        let first = MintpyStage::first();
        mintpy_step(first, job_workdir, workflow_cfg, images)
    } else {
        completion_bridge_step(job_workdir)
    }
}

/// Routes to the appropriate next suite after MintPy completes: PS-InSAR
/// continues into MiaplPy, whose stages are not defined yet; the SBAS and
/// time-series workflows end after MintPy.
fn post_mintpy_step(workflow: &str, job_workdir: &str) -> (r: Option<WorkflowStep>)
    ensures
        match r {
            Some(step) => workflow@ == "ps_insar"@ && step@ == bridge_model(job_workdir@),
            None => workflow@ != "ps_insar"@,
        },
{
    if text_eq(workflow, "ps_insar") {
        Some(completion_bridge_step(job_workdir))
    } else {
        None
    }
}

/// The view of an optional step.
pub open spec fn opt_step(step: Option<WorkflowStep>) -> Option<StepModel> {
    match step {
        Some(step) => Some(step@),
        None => None,
    }
}

/// Resolves the next `WorkflowStep` for a job given its current state.
///
/// Returns `None` when the state is terminal or not advanceable (e.g.
/// `Completed`, `Failed`, `Cancelled`, `Initializing`), and when the workflow
/// ends with it. The scheduler treats `None` as "nothing to do for this job."
///
/// The `workflow` field on `Job` determines which processing suite follows
/// ISCE2 (`"sbas"` → MintPy, `"ps_insar"` | `"timeseries"` → MintPy,
/// with MiaplPy as an optional subsequent stage).
pub fn step_for_state(
    job: &Job,
    workflow_cfg: &WorkflowConfig,
    images: &ContainerImages,
    archive_dir: String,
) -> (r: Option<WorkflowStep>)
    ensures
        follows(opt_step(r), *job, *workflow_cfg, *images, archive_dir@),
{
    let job_workdir = job.work_dir.as_str();
    match &job.state {
        JobState::Queued => Some(
            download_step(archive_dir.as_str(), job_workdir, workflow_cfg, images),
        ),
        JobState::Downloading => {
            let first = IsceStage::first();
            Some(isce_step(first, job_workdir, workflow_cfg, images))
        },
        JobState::IsceProcessing { stage } => match stage.next() {
            Some(next_stage) => Some(isce_step(next_stage, job_workdir, workflow_cfg, images)),
            None => Some(
                post_isce_step(job.workflow.as_str(), job_workdir, workflow_cfg, images),
            ),
        },
        JobState::MintpyProcessing { stage } => match stage.next() {
            Some(next_stage) => Some(mintpy_step(next_stage, job_workdir, workflow_cfg, images)),
            None => post_mintpy_step(job.workflow.as_str(), job_workdir),
        },
        JobState::MiaplpyProcessing { stage } => match stage.next() {
            Some(next_stage) => Some(miaplpy_step(next_stage, job_workdir, workflow_cfg, images)),
            // MiaplPy is the final suite: no further steps.
            None => None,
        },
        // Terminal or non-scheduler states.
        JobState::Initializing
        | JobState::ResultsGenerating
        | JobState::Completed
        | JobState::Failed { .. }
        | JobState::Cancelled => None,
    }
}

// ---------------------------------------------------------------------------
// Laws
// ---------------------------------------------------------------------------

/// How far a job has come: the number of steps behind it.
pub open spec fn progress(state: JobStateModel) -> int {
    match state {
        JobStateModel::Queued => 0,
        JobStateModel::Downloading => 1,
        JobStateModel::IsceProcessing { stage } => 2 + stage.index(),
        JobStateModel::MintpyProcessing { stage } => 18 + stage.index(),
        JobStateModel::Completed => 36,
        _ => 0,
    }
}

/// Every step takes a job forward: it ends one step further on, or completed.
/// So no job runs in circles, and none takes more than 36 steps.
pub proof fn steps_take_jobs_forward(
    step: StepModel,
    job: Job,
    cfg: WorkflowConfig,
    images: ContainerImages,
    archive: Seq<char>,
)
    requires
        follows(Some(step), job, cfg, images, archive),
    ensures
        progress(job.state@) < progress(step.next_state) <= 36,
        progress(step.next_state) == progress(job.state@) + 1 || step.next_state is Completed,
{
}

/// A download leads to the first stage of ISCE2: where the download of a queued
/// job has succeeded, the next step advances it to unpacking the reference.
pub proof fn downloads_lead_to_isce(
    download: StepModel,
    step: Option<StepModel>,
    queued: Job,
    downloaded: Job,
    cfg: WorkflowConfig,
    images: ContainerImages,
    archive: Seq<char>,
)
    requires
        queued.state@ is Queued,
        follows(Some(download), queued, cfg, images, archive),
        downloaded.state@ == download.next_state,
        follows(step, downloaded, cfg, images, archive),
    ensures
        step is Some,
        (step->0).next_state == (JobStateModel::IsceProcessing {
            stage: IsceStage::UnpackTopoReference,
        }),
{
}

/// A job that may not advance has no step: neither a finished one nor one that
/// is still being set up.
pub proof fn finished_jobs_have_no_step(
    step: Option<StepModel>,
    job: Job,
    cfg: WorkflowConfig,
    images: ContainerImages,
    archive: Seq<char>,
)
    requires
        follows(step, job, cfg, images, archive),
        !job.state@.advanceable(),
    ensures
        step is None,
{
}

/// What follows for a job is determined by the job and the configuration.
pub proof fn next_step_is_unique(
    a: Option<StepModel>,
    b: Option<StepModel>,
    job: Job,
    cfg: WorkflowConfig,
    images: ContainerImages,
    archive: Seq<char>,
)
    requires
        follows(a, job, cfg, images, archive),
        follows(b, job, cfg, images, archive),
    ensures
        a == b,
{
}

/// What each step runs. The download container gets the archive and no
/// arguments; every other container gets the name of the stage that the job then
/// is in, which is the one right behind the stage that it was in: the first of
/// ISCE2 after the download, the first of MintPy after phase unwrapping. All
/// containers see the job directory at `/job`.
pub proof fn steps_run_the_next_stage(
    step: StepModel,
    job: Job,
    cfg: WorkflowConfig,
    images: ContainerImages,
    archive: Seq<char>,
)
    requires
        follows(Some(step), job, cfg, images, archive),
    ensures
        step.spec.host_workdir == job.work_dir@,
        step.spec.container_workdir == "/job"@,
        !(job.state@ is Queued) ==> step.spec.host_archive == job.work_dir@,
        match step.next_state {
            JobStateModel::Downloading => {
                &&& job.state@ is Queued
                &&& step.label == "download"@
                &&& step.spec.image == images.download@
                &&& step.spec.args.len() == 0
                &&& step.spec.host_archive == archive
                &&& step.spec.resources.cpu_cores == cfg.download.cpu_cores
                &&& step.spec.resources.ram_gb == cfg.download.ram_gb
            },
            JobStateModel::IsceProcessing { stage } => {
                &&& step.label == "isce2."@ + stage.name()
                &&& step.spec.image == images.isce2@
                &&& step.spec.args == seq![stage.name()]
                &&& match job.state@ {
                    JobStateModel::Downloading => stage.name() == "unpack_topo_reference"@,
                    JobStateModel::IsceProcessing { stage: before } => before.precedes(stage),
                    _ => false,
                }
            },
            JobStateModel::MintpyProcessing { stage } => {
                &&& step.label == "mintpy."@ + stage.name()
                &&& step.spec.image == images.mintpy@
                &&& step.spec.args == seq![stage.name()]
                &&& match job.state@ {
                    JobStateModel::IsceProcessing { stage: before } => before.name()
                        == "phase_unwrap"@ && stage.name() == "load_data"@ && (job.workflow@
                        == "sbas"@ || job.workflow@ == "ps_insar"@ || job.workflow@
                        == "timeseries"@),
                    JobStateModel::MintpyProcessing { stage: before } => before.precedes(stage),
                    _ => false,
                }
            },
            JobStateModel::Completed => {
                &&& step.spec.image == ""@
                &&& step.spec.args.len() == 0
                &&& step.spec.resources.cpu_cores == 0
                &&& match job.state@ {
                    JobStateModel::IsceProcessing { stage } => stage.name() == "phase_unwrap"@
                        && job.workflow@ != "sbas"@ && job.workflow@ != "ps_insar"@
                        && job.workflow@ != "timeseries"@,
                    JobStateModel::MintpyProcessing { stage } => stage.name() == "hdfeos5"@
                        && job.workflow@ == "ps_insar"@,
                    _ => false,
                }
            },
            _ => false,
        },
{
    reveal_strlit("");
}

/// A stage runs with the resources that the configuration states for it by name,
/// in the first entry that does, and only where there is none with those of its
/// tier.
pub proof fn overrides_come_first(
    stage: Seq<char>,
    tier: ResourceTier,
    overrides: Seq<StepOverride>,
    cfg: WorkflowConfig,
)
    ensures
        ({
            let found = resources_of(stage, tier, overrides, cfg);
            let tier_config = match tier {
                ResourceTier::Light => cfg.tiers.light,
                ResourceTier::Medium => cfg.tiers.medium,
                ResourceTier::Heavy => cfg.tiers.heavy,
            };
            &&& forall|i: int|
                0 <= i < overrides.len() && (#[trigger] overrides[i]).stage@ == stage && (forall|
                    j: int,
                |
                    0 <= j < i ==> (#[trigger] overrides[j]).stage@ != stage) ==> found.cpu_cores
                    == overrides[i].resources.cpu_cores && found.ram_gb
                    == overrides[i].resources.ram_gb
            &&& (forall|i: int| 0 <= i < overrides.len() ==> (#[trigger] overrides[i]).stage@ != stage)
                ==> found.cpu_cores == tier_config.cpu_cores && found.ram_gb == tier_config.ram_gb
        }),
    decreases overrides.len(),
{
    if overrides.len() > 0 && overrides[0].stage@ != stage {
        let rest = overrides.drop_first();
        overrides_come_first(stage, tier, rest, cfg);
        let found = resources_of(stage, tier, overrides, cfg);
        assert(found == resources_of(stage, tier, rest, cfg));
        assert forall|i: int|
            0 <= i < overrides.len() && (#[trigger] overrides[i]).stage@ == stage && (forall|j: int|
                0 <= j < i ==> (#[trigger] overrides[j]).stage@ != stage) implies found.cpu_cores
            == overrides[i].resources.cpu_cores && found.ram_gb == overrides[i].resources.ram_gb by {
            assert(rest[i - 1] == overrides[i]);
            assert forall|j: int| 0 <= j < i - 1 implies (#[trigger] rest[j]).stage@ != stage by {
                assert(rest[j] == overrides[j + 1]);
            }
        }
        if forall|i: int| 0 <= i < overrides.len() ==> (#[trigger] overrides[i]).stage@ != stage {
            assert forall|i: int| 0 <= i < rest.len() implies (#[trigger] rest[i]).stage@
                != stage by {
                assert(rest[i] == overrides[i + 1]);
            }
        }
    } else if overrides.len() > 0 {
        assert forall|i: int|
            0 <= i < overrides.len() && (#[trigger] overrides[i]).stage@ == stage && (forall|j: int|
                0 <= j < i ==> (#[trigger] overrides[j]).stage@ != stage) implies i == 0 by {
            if i > 0 {
                assert(overrides[0].stage@ != stage);
            }
        }
    }
}

/// Each stage of ISCE2 and MintPy is looked up under its own name among the
/// overrides of its own suite, and needs the resources of its own tier.
pub proof fn stages_use_their_own_resources(
    step: StepModel,
    job: Job,
    cfg: WorkflowConfig,
    images: ContainerImages,
    archive: Seq<char>,
)
    requires
        follows(Some(step), job, cfg, images, archive),
    ensures
        match step.next_state {
            JobStateModel::IsceProcessing { stage } => step.spec.resources == resources_of(
                stage.name(),
                stage.tier(),
                cfg.isce2_overrides@,
                cfg,
            ),
            JobStateModel::MintpyProcessing { stage } => step.spec.resources == resources_of(
                stage.name(),
                stage.tier(),
                cfg.mintpy_overrides@,
                cfg,
            ),
            _ => true,
        },
{
}

/// Each container is run from the image that the configuration names for it.
pub proof fn images_are_those_configured(images: ContainerImages, config: SystemConfig)
    requires
        images.from_config(config),
    ensures
        images.download@ == config.containers.download@,
        images.isce2@ == config.containers.isce2@,
        images.mintpy@ == config.containers.mintpy@,
        images.miaplpy@ == config.containers.miaplpy@,
        images.results@ == config.containers.results@,
{
}

} // verus!
