//! Running the container of a step: what is asked of Docker, in which order, and
//! what is made of the answers.
use vstd::prelude::*;

use crate::float64;
use crate::float64::Float64;
use crate::ids;
use crate::ids::Uuid;
use crate::paths;
use crate::paths::{join, join2};
use crate::scheduler::definition::{ContainerModel, ContainerSpec, WorkflowStep};
use crate::shared::job::{JobError, JobErrorModel};
use crate::text;
use crate::text::{chars_of, concat2, concat3, concat4, string_of, text_eq};

verus! {

// ---------------------------------------------------------------------------
// Errors
// ---------------------------------------------------------------------------

/// What went wrong while a container ran. Errors of the file system and of
/// Docker are told by their texts.
#[derive(Debug)]
pub enum StepError {
    LogFileCreate { path: String, source: String },
    Docker(String),
    NonZeroExit { exit_code: i64 },
    LogWrite(String),
}

/// The error that a failed step leaves on the job.
pub open spec fn job_error_of(error: StepError) -> JobErrorModel {
    match error {
        StepError::NonZeroExit { exit_code } => JobErrorModel::ContainerFailed {
            exit_code: exit_code as int,
        },
        StepError::Docker(reason) => JobErrorModel::ContainerStartFailed { reason: reason@ },
        StepError::LogFileCreate { path, source } => JobErrorModel::Internal {
            message: "failed to create log file at "@ + path@ + ": "@ + source@,
        },
        StepError::LogWrite(source) => JobErrorModel::Internal {
            message: "log write error: "@ + source@,
        },
    }
}

impl StepError {
    /// Converts a `StepError` into the typed `JobError` that will be
    /// persisted to the database.
    pub fn into_job_error(self) -> (r: JobError)
        ensures
            r@ == job_error_of(self),
    {
        match self {
            StepError::NonZeroExit { exit_code } => JobError::ContainerFailed { exit_code },
            StepError::Docker(reason) => JobError::ContainerStartFailed { reason },
            StepError::LogFileCreate { path, source } => JobError::Internal {
                message: concat4(
                    "failed to create log file at ",
                    path.as_str(),
                    ": ",
                    source.as_str(),
                ),
            },
            StepError::LogWrite(source) => JobError::Internal {
                message: concat2("log write error: ", source.as_str()),
            },
        }
    }
}

/// The result of running a single workflow step.
#[derive(Debug)]
pub enum StepOutcome {
    /// Container exited 0. The scheduler should write `step.next_state` to DB.
    Success,
    /// Container exited non-zero or failed to start. The scheduler should
    /// write `Failed { error }` to DB.
    Failed(JobError),
}

// ---------------------------------------------------------------------------
// Container names
// ---------------------------------------------------------------------------

/// A label with dots and colons turned into hyphens.
pub open spec fn safe_label(label: Seq<char>) -> Seq<char> {
    label.map_values(
        |c: char|
            if c == '.' || c == ':' {
                '-'
            } else {
                c
            },
    )
}

/// The name of the container that runs a step of a job.
pub open spec fn name_of(job_id: Uuid, label: Seq<char>) -> Seq<char> {
    "sisar-"@ + job_id.text() + "-"@ + safe_label(label)
}

/// Produces a deterministic, Docker-safe container name from the job ID and
/// step label. Colons and dots in step labels (e.g. `"isce2.phase_unwrap"`)
/// are replaced with hyphens since Docker does not allow them in names.
pub fn container_name(job_id: Uuid, step_label: &str) -> (r: String)
    ensures
        r@ == name_of(job_id, step_label@),
{
    let label = chars_of(step_label);
    let mut safe: Vec<char> = Vec::new();
    for i in 0..label.len()
        invariant
            label@ == step_label@,
            safe@ == safe_label(step_label@).take(i as int),
    {
        let c = if label[i] == '.' || label[i] == ':' {
            '-'
        } else {
            label[i]
        };
        safe.push(c);
        assert(safe@ =~= safe_label(step_label@).take(i + 1));
    }
    assert(safe@ =~= safe_label(step_label@));
    let text = string_of(&safe, 0, safe.len());
    assert(text@ =~= safe_label(step_label@));
    concat4("sisar-", job_id.to_text().as_str(), "-", text.as_str())
}

/// Containers of different jobs have different names, whatever their steps are
/// called.
pub proof fn container_names_differ(a: Uuid, first: Seq<char>, b: Uuid, second: Seq<char>)
    requires
        name_of(a, first) == name_of(b, second),
    ensures
        a == b,
{
    ids::uuid_text_len(a);
    ids::uuid_text_len(b);
    let p = "sisar-"@.len() as int;
    let x = name_of(a, first);
    let y = name_of(b, second);
    assert(x.subrange(p, p + 36) =~= a.text());
    assert(y.subrange(p, p + 36) =~= b.text());
    ids::uuid_texts_differ(a, b);
}

/// A label that was made safe holds no dots and no colons, and is as long as
/// before.
pub proof fn safe_labels_are_safe(label: Seq<char>)
    ensures
        !safe_label(label).contains('.'),
        !safe_label(label).contains(':'),
        safe_label(label).len() == label.len(),
{
    let s = safe_label(label);
    assert forall|i: int| 0 <= i < s.len() implies s[i] != '.' && s[i] != ':' by {}
}

// ---------------------------------------------------------------------------
// Container configuration
// ---------------------------------------------------------------------------

/// A limit on a resource of the container's processes.
#[derive(Debug)]
pub struct Ulimit {
    pub name: &'static str,
    pub soft: i64,
    pub hard: i64,
}

/// What Docker is told of a container.
#[derive(Debug)]
pub struct ContainerConfig {
    pub image: String,
    /// The command; absent where there are no arguments.
    pub cmd: Option<Vec<String>>,
    pub working_dir: String,
    pub binds: Vec<String>,
    pub cpu_quota: i64,
    pub cpu_period: i64,
    /// Memory limit in bytes.
    pub memory: i64,
    /// Limit on memory and swap together: the same, which disables swap.
    pub memory_swap: i64,
    pub ulimit: Ulimit,
}

impl ContainerConfig {
    /// Whether the configuration is that of the container.
    pub open spec fn configures(self, spec: ContainerModel) -> bool {
        &&& self.image@ == spec.image
        &&& match self.cmd {
            Some(args) => spec.args.len() > 0 && text::texts(args@) == spec.args,
            None => spec.args.len() == 0,
        }
        &&& self.working_dir@ == spec.container_workdir
        &&& text::texts(self.binds@) == seq![
            spec.host_workdir + ":"@ + spec.container_workdir,
            spec.host_archive + ":/archive"@,
        ]
        &&& self.cpu_quota == spec.resources.cpu_cores * 100_000
        &&& self.cpu_period == 100_000
        &&& self.memory == spec.resources.ram_gb.gibibytes()
        &&& self.memory_swap == self.memory
        &&& self.ulimit.name@ == "nofile"@
        &&& self.ulimit.soft == 4096
        &&& self.ulimit.hard == 4096
    }
}

/// A copy of a list of texts.
fn copy_texts(v: &Vec<String>) -> (r: Vec<String>)
    ensures
        text::texts(r@) == text::texts(v@),
        r.len() == v.len(),
{
    let mut out: Vec<String> = Vec::new();
    for i in 0..v.len()
        invariant
            text::texts(out@) == text::texts(v@).take(i as int),
            out.len() == i,
    {
        let ghost before = out@;
        out.push(v[i].clone());
        assert(text::texts(out@) =~= text::texts(before).push(v[i as int]@));
        assert(text::texts(v@).take(i + 1) =~= text::texts(v@).take(i as int).push(v[i as int]@));
    }
    assert(text::texts(v@).take(v.len() as int) =~= text::texts(v@));
    out
}

/// What Docker is told of a container.
///
/// Docker uses `cpu_period` (100_000 µs) and `cpu_quota`: a quota of as many
/// periods as there are cores gives a hard core-count limit.
pub fn create_container(spec: &ContainerSpec) -> (r: ContainerConfig)
    ensures
        r.configures(spec@),
{
    let cpu_quota: i64 = spec.resources.cpu_cores as i64 * 100_000;
    let memory: i64 = spec.resources.ram_gb.gibibytes_to_bytes();
    let binds = vec![
        concat3(spec.host_workdir.as_str(), ":", spec.container_workdir.as_str()),
        concat2(spec.host_archive.as_str(), ":/archive"),
    ];
    assert(text::texts(binds@) =~= seq![
        spec@.host_workdir + ":"@ + spec@.container_workdir,
        spec@.host_archive + ":/archive"@,
    ]);
    let cmd = if spec.args.len() == 0 {
        None
    } else {
        Some(copy_texts(&spec.args))
    };
    ContainerConfig {
        image: spec.image.clone(),
        cmd,
        working_dir: spec.container_workdir.clone(),
        binds,
        cpu_quota,
        cpu_period: 100_000,
        memory,
        memory_swap: memory,
        ulimit: Ulimit { name: "nofile", soft: 4096, hard: 4096 },
    }
}

// ---------------------------------------------------------------------------
// Logs
// ---------------------------------------------------------------------------

/// Where a piece of a container's output comes from.
#[derive(Debug, Clone, Copy, PartialEq, Eq, Structural)]
pub enum LogSource {
    StdOut,
    StdErr,
    /// Console/TTY output.
    Console,
    StdIn,
}

/// The log file that a piece of output goes to.
#[derive(Debug, Clone, Copy, PartialEq, Eq, Structural)]
pub enum LogTarget {
    StdOut,
    StdErr,
}

/// Which log file a piece of output goes to: the console goes to the file of the
/// standard output, and input goes to none.
pub fn log_target(source: LogSource) -> (r: Option<LogTarget>)
    ensures
        r == match source {
            LogSource::StdOut | LogSource::Console => Some(LogTarget::StdOut),
            LogSource::StdErr => Some(LogTarget::StdErr),
            LogSource::StdIn => None,
        },
{
    match source {
        LogSource::StdOut => Some(LogTarget::StdOut),
        LogSource::StdErr => Some(LogTarget::StdErr),
        LogSource::Console => Some(LogTarget::StdOut),
        LogSource::StdIn => None,
    }
}

// ---------------------------------------------------------------------------
// The run
// ---------------------------------------------------------------------------

/// What the run of a container waits for.
#[derive(Debug, Clone, Copy, PartialEq, Eq, Structural)]
pub enum RunPhase {
    Create,
    Start,
    LogDirectory,
    Logs,
    Exit,
    Remove { exit_code: i64 },
    Ended,
}

/// What a piece of outside work gave.
#[derive(Debug)]
pub enum RunEvent {
    /// The work is done.
    Done,
    /// The container has exited; there is no code where Docker told none.
    Exited(Option<i64>),
    /// The work failed.
    Failed(StepError),
}

/// The outside work to do next.
#[derive(Debug)]
pub enum RunAction {
    Create { name: String, config: ContainerConfig },
    Start,
    CreateLogDirectory(String),
    StreamLogs { stdout: String, stderr: String },
    WaitForExit,
    Remove,
    Finish(StepOutcome),
}

/// Where the logs of a job go.
pub open spec fn log_dir(logs_root: Seq<char>, job_id: Uuid) -> Seq<char> {
    paths::joined_path(logs_root, job_id.text())
}

/// Whether the outcome is a failure with this error.
pub open spec fn fails_with(action: RunAction, error: JobErrorModel) -> bool {
    match action {
        RunAction::Finish(StepOutcome::Failed(found)) => found@ == error,
        _ => false,
    }
}

impl RunPhase {
    /// Whether the event can come in this phase.
    pub open spec fn expects(self, event: RunEvent) -> bool {
        match event {
            RunEvent::Done => !(self is Exit) && !(self is Ended),
            RunEvent::Exited(_) => self is Exit,
            RunEvent::Failed(_) => !(self is Ended),
        }
    }

    /// Whether a run that was in this phase goes on as it should.
    pub open spec fn goes_on(
        self,
        event: RunEvent,
        after: RunPhase,
        action: RunAction,
        logs_root: Seq<char>,
        job_id: Uuid,
        label: Seq<char>,
    ) -> bool {
        match event {
            RunEvent::Failed(error) => after is Ended && fails_with(action, job_error_of(error)),
            RunEvent::Exited(None) => after is Ended && fails_with(
                action,
                JobErrorModel::ContainerStartFailed {
                    reason:
                        "Docker responded with status code 500: wait stream ended without a response"@,
                },
            ),
            RunEvent::Exited(Some(exit_code)) => action is Remove && after == (RunPhase::Remove {
                exit_code,
            }),
            RunEvent::Done => match self {
                RunPhase::Create => action is Start && after is Start,
                RunPhase::Start => after is LogDirectory && match action {
                    RunAction::CreateLogDirectory(dir) => dir@ == log_dir(logs_root, job_id),
                    _ => false,
                },
                RunPhase::LogDirectory => after is Logs && match action {
                    RunAction::StreamLogs { stdout, stderr } => {
                        &&& stdout@ == paths::joined_path(
                            log_dir(logs_root, job_id),
                            label + ".stdout"@,
                        )
                        &&& stderr@ == paths::joined_path(
                            log_dir(logs_root, job_id),
                            label + ".stderr"@,
                        )
                    },
                    _ => false,
                },
                RunPhase::Logs => action is WaitForExit && after is Exit,
                RunPhase::Remove { exit_code } => after is Ended && if exit_code == 0 {
                    action == RunAction::Finish(StepOutcome::Success)
                } else {
                    fails_with(
                        action,
                        JobErrorModel::ContainerFailed { exit_code: exit_code as int },
                    )
                },
                _ => false,
            },
        }
    }

    /// Takes what the last piece of outside work gave and says what comes next:
    /// the container is started, its logs are streamed to separate `.stdout` and
    /// `.stderr` files, its exit is awaited, and it is removed. The first failure
    /// ends the run.
    pub fn step(&mut self, event: RunEvent, logs_root: &str, job_id: Uuid, label: &str) -> (r:
        RunAction)
        requires
            old(self).expects(event),
        ensures
            old(self).goes_on(event, *final(self), r, logs_root@, job_id, label@),
    {
        match event {
            RunEvent::Failed(error) => {
                *self = RunPhase::Ended;
                RunAction::Finish(StepOutcome::Failed(error.into_job_error()))
            },
            RunEvent::Exited(None) => {
                *self = RunPhase::Ended;
                let error = StepError::Docker(
                    "Docker responded with status code 500: wait stream ended without a response".to_owned(),
                );
                RunAction::Finish(StepOutcome::Failed(error.into_job_error()))
            },
            RunEvent::Exited(Some(exit_code)) => {
                *self = RunPhase::Remove { exit_code };
                RunAction::Remove
            },
            RunEvent::Done => match *self {
                RunPhase::Create => {
                    *self = RunPhase::Start;
                    RunAction::Start
                },
                RunPhase::Start => {
                    *self = RunPhase::LogDirectory;
                    RunAction::CreateLogDirectory(join(logs_root, job_id.to_text().as_str()))
                },
                RunPhase::LogDirectory => {
                    *self = RunPhase::Logs;
                    let id = job_id.to_text();
                    let stdout = concat2(label, ".stdout");
                    let stderr = concat2(label, ".stderr");
                    RunAction::StreamLogs {
                        stdout: join2(logs_root, id.as_str(), stdout.as_str()),
                        stderr: join2(logs_root, id.as_str(), stderr.as_str()),
                    }
                },
                RunPhase::Logs => {
                    *self = RunPhase::Exit;
                    RunAction::WaitForExit
                },
                RunPhase::Remove { exit_code } => {
                    *self = RunPhase::Ended;
                    if exit_code != 0 {
                        let error = StepError::NonZeroExit { exit_code };
                        RunAction::Finish(StepOutcome::Failed(error.into_job_error()))
                    } else {
                        RunAction::Finish(StepOutcome::Success)
                    }
                },
                _ => RunAction::Remove,
            },
        }
    }
}

/// Begins to execute a single workflow step for the given job.
///
/// The completion sentinel (empty image) is a no-op: it succeeds immediately
/// without touching Docker.
pub fn run_step(job_id: Uuid, step: &WorkflowStep) -> (r: (RunPhase, RunAction))
    ensures
        if step@.spec.image == ""@ {
            r == (RunPhase::Ended, RunAction::Finish(StepOutcome::Success))
        } else {
            r.0 is Create && match r.1 {
                RunAction::Create { name, config } => name@ == name_of(job_id, step@.label)
                    && config.configures(step@.spec),
                _ => false,
            }
        },
{
    if text_eq(step.spec.image.as_str(), "") {
        return (RunPhase::Ended, RunAction::Finish(StepOutcome::Success));
    }
    (
        RunPhase::Create,
        RunAction::Create {
            name: container_name(job_id, step.label.as_str()),
            config: create_container(&step.spec),
        },
    )
}

/// A step succeeds only where its container exited with code 0 and was removed.
pub proof fn success_means_exit_zero(
    before: RunPhase,
    event: RunEvent,
    after: RunPhase,
    logs_root: Seq<char>,
    job_id: Uuid,
    label: Seq<char>,
)
    requires
        before.expects(event),
        before.goes_on(
            event,
            after,
            RunAction::Finish(StepOutcome::Success),
            logs_root,
            job_id,
            label,
        ),
    ensures
        before == (RunPhase::Remove { exit_code: 0 }),
        event is Done,
{
}

/// A run does its work in order: the container is created, started, given its logs,
/// waited for and removed, and only then does the run end. Its logs lie in the
/// directory of its job, standard output and errors apart. Where nothing on the way
/// failed, the outcome is the exit code: success for 0, else an error that holds it.
pub proof fn runs_do_their_work_in_order(
    before: RunPhase,
    event: RunEvent,
    after: RunPhase,
    action: RunAction,
    logs_root: Seq<char>,
    job_id: Uuid,
    label: Seq<char>,
)
    requires
        before.expects(event),
        before.goes_on(event, after, action, logs_root, job_id, label),
    ensures
        event is Failed || event == RunEvent::Exited(None) <==> (action is Finish && !(
        before is Remove && event is Done)),
        match action {
            RunAction::Create { .. } => false,
            RunAction::Start => before is Create && after is Start,
            RunAction::CreateLogDirectory(dir) => before is Start && after is LogDirectory && dir@
                == paths::joined_path(logs_root, job_id.text()),
            RunAction::StreamLogs { stdout, stderr } => {
                &&& before is LogDirectory && after is Logs
                &&& stdout@ == paths::joined_path(
                    paths::joined_path(logs_root, job_id.text()),
                    label + ".stdout"@,
                )
                &&& stderr@ == paths::joined_path(
                    paths::joined_path(logs_root, job_id.text()),
                    label + ".stderr"@,
                )
            },
            RunAction::WaitForExit => before is Logs && after is Exit,
            RunAction::Remove => {
                &&& before is Exit
                &&& event matches RunEvent::Exited(Some(code)) && after == (RunPhase::Remove {
                    exit_code: code,
                })
            },
            RunAction::Finish(outcome) => {
                &&& after is Ended
                &&& before matches RunPhase::Remove { exit_code } ==> event is Done ==> match outcome {
                    StepOutcome::Success => exit_code == 0,
                    StepOutcome::Failed(error) => exit_code != 0 && error@ == (
                    JobErrorModel::ContainerFailed { exit_code: exit_code as int }),
                }
            },
        },
{
}

/// A container runs the image and the arguments of its step, sees the job directory
/// where it works and the archive at `/archive`, gets as many whole periods of the
/// processor as it has cores, and no swap on top of its memory.
pub proof fn containers_get_what_their_step_needs(config: ContainerConfig, spec: ContainerModel)
    requires
        config.configures(spec),
    ensures
        config.image@ == spec.image,
        spec.args.len() == 0 <==> config.cmd is None,
        config.cmd matches Some(args) ==> text::texts(args@) == spec.args,
        config.working_dir@ == spec.container_workdir,
        config.binds.len() == 2,
        config.binds[0]@ == spec.host_workdir + ":"@ + spec.container_workdir,
        config.binds[1]@ == spec.host_archive + ":/archive"@,
        config.cpu_period == 100_000,
        config.cpu_quota == spec.resources.cpu_cores * config.cpu_period,
        config.memory_swap == config.memory,
        forall|n: int|
            0 <= n < 0x2_0000_0000 && spec.resources.ram_gb.scaled() == #[trigger] float64::units(n)
                && !spec.resources.ram_gb.is_nan() ==> config.memory == n * 1024 * 1024 * 1024,
        config.ulimit.soft == 4096,
        config.ulimit.hard == 4096,
{
    assert(text::texts(config.binds@).len() == 2);
    assert(text::texts(config.binds@)[0] == config.binds[0]@);
    assert(text::texts(config.binds@)[1] == config.binds[1]@);
    assert forall|n: int|
        0 <= n < 0x2_0000_0000 && spec.resources.ram_gb.scaled() == #[trigger] float64::units(n)
            && !spec.resources.ram_gb.is_nan() implies config.memory == n * 1024 * 1024 * 1024 by {
        Float64::whole_gibibytes_are_counted(spec.resources.ram_gb, n);
    }
}

/// A container that ran and failed leaves its exit code, one that could not be run
/// the reason; trouble with the logs is the scheduler's own.
pub proof fn failures_tell_their_cause(error: StepError)
    ensures
        match error {
            StepError::NonZeroExit { exit_code } => job_error_of(error)
                == (JobErrorModel::ContainerFailed { exit_code: exit_code as int }),
            StepError::Docker(reason) => job_error_of(error)
                == (JobErrorModel::ContainerStartFailed { reason: reason@ }),
            _ => job_error_of(error) is Internal,
        },
{
}

} // verus!
