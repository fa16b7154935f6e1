//! The job scheduler: which claimed jobs run their next step, and what becomes
//! of them when it ends.
use vstd::prelude::*;

use crate::float64::{Float64, ZERO_BITS};
use crate::ids::Uuid;
use crate::scheduler::config::{SystemConfig, TierLimitsConfig, WorkflowConfig};
use crate::scheduler::definition;
use crate::scheduler::definition::{step_for_state, ContainerImages, WorkflowStep};
use crate::scheduler::pool::{ActiveSet, ResourcePool};
use crate::scheduler::runner::{RunAction, RunEvent, RunPhase, StepOutcome};
use crate::shared::job::{Job, JobErrorModel, JobRowErrorModel, JobState, JobStateModel};
use crate::shared::queries;
use crate::shared::queries::{advance_job_state, complete_job, fail_job, StateColumns};
use crate::shared::tier::UserTier;
use crate::text;

verus! {

/// The top-level scheduler. Holds the configuration and what is in use.
#[derive(Debug)]
pub struct Scheduler {
    pub system_cfg: SystemConfig,
    pub workflow_cfg: WorkflowConfig,
    pub images: ContainerImages,
    pub resources: ResourcePool,
    /// The jobs whose step is running, used to enforce
    /// `max_concurrent_containers` and detect in-flight jobs.
    pub active: ActiveSet,
}

/// How many more can be started where `running` of at most `max` are.
pub fn free_slots(max: usize, running: usize) -> (r: i64)
    ensures
        r == (if max <= running {
            0
        } else if max - running <= i64::MAX {
            max - running
        } else {
            i64::MAX as int
        }),
{
    if max <= running {
        return 0;
    }
    let free: u64 = (max - running) as u64;
    if free <= 0x7fff_ffff_ffff_ffffu64 {
        free as i64
    } else {
        i64::MAX
    }
}

/// Whether the columns say what becomes of a job whose step ended.
pub open spec fn ends_step(columns: StateColumns, next: JobStateModel, outcome: StepOutcome) -> bool {
    match outcome {
        StepOutcome::Success => {
            &&& columns.job_state@ == next.name()
            &&& text::opt_text(columns.job_stage) == next.stage_name()
            &&& columns.job_error_kind is None
            &&& columns.job_error_message is None
        },
        StepOutcome::Failed(error) => {
            &&& columns.job_state@ == "failed"@
            &&& columns.job_stage is None
            &&& text::opt_text(columns.job_error_kind) == Some(error@.kind())
            &&& text::opt_text(columns.job_error_message) == error@.detail()
        },
    }
}

impl Scheduler {
    /// Whether the books are in order.
    pub open spec fn wf(self) -> bool {
        self.active.wf()
    }

    /// Whether the configuration is the same as another scheduler's.
    pub open spec fn same_config(self, other: Scheduler) -> bool {
        &&& self.system_cfg == other.system_cfg
        &&& self.workflow_cfg == other.workflow_cfg
        &&& self.images == other.images
    }

    /// The limits of a tier.
    pub open spec fn limits(self, tier: UserTier) -> TierLimitsConfig {
        match tier {
            UserTier::Demo => self.system_cfg.user_tiers.demo,
            UserTier::Free => self.system_cfg.user_tiers.free,
            UserTier::Pro => self.system_cfg.user_tiers.pro,
        }
    }

    /// A scheduler of which nothing is in use.
    pub fn new(system_cfg: SystemConfig, workflow_cfg: WorkflowConfig) -> (r: Self)
        ensures
            r.wf(),
            r.system_cfg == system_cfg,
            r.workflow_cfg == workflow_cfg,
            r.images.from_config(system_cfg),
            r.resources == (ResourcePool {
                total_cpu: system_cfg.resources.total_cpu_cores,
                total_ram_gb: system_cfg.resources.total_ram_gb,
                used_cpu: 0,
                used_ram_gb: Float64 { bits: ZERO_BITS },
            }),
            r.resources.within_total(),
            r.active@ == Set::<Uuid>::empty(),
    {
        let resources = ResourcePool::new(
            system_cfg.resources.total_cpu_cores,
            system_cfg.resources.total_ram_gb,
        );
        let images = ContainerImages::new(&system_cfg);
        Self { system_cfg, workflow_cfg, images, resources, active: ActiveSet::new() }
    }

    /// How many jobs to claim at most: the container slots that are free.
    pub fn claim_limit(&self) -> (r: i64)
        requires
            self.wf(),
        ensures
            0 <= r,
            r == 0 || self.active@.len() + r <= self.system_cfg.scheduler.max_concurrent_containers,
            r == 0 || r == i64::MAX || self.active@.len() + r
                == self.system_cfg.scheduler.max_concurrent_containers,
            r == 0 ==> self.active@.len() >= self.system_cfg.scheduler.max_concurrent_containers,
    {
        free_slots(self.system_cfg.scheduler.max_concurrent_containers, self.active.len())
    }

    /// The step to run next for a job. There is none for a job that already runs
    /// a step, and none where the state of the job has nothing to follow.
    pub fn plan(&self, job: &Job) -> (r: Option<WorkflowStep>)
        ensures
            if self.active@.contains(job.id) {
                r is None
            } else {
                definition::follows(
                    definition::opt_step(r),
                    *job,
                    self.workflow_cfg,
                    self.images,
                    self.system_cfg.paths.archive_root@,
                )
            },
    {
        if self.active.contains(job.id) {
            return None;
        }
        step_for_state(
            job,
            &self.workflow_cfg,
            &self.images,
            self.system_cfg.paths.archive_root.clone(),
        )
    }

    /// The limits of a tier.
    pub fn tier_limits(&self, tier: &UserTier) -> (r: &TierLimitsConfig)
        ensures
            *r == self.limits(*tier),
    {
        match tier {
            UserTier::Demo => &self.system_cfg.user_tiers.demo,
            UserTier::Free => &self.system_cfg.user_tiers.free,
            UserTier::Pro => &self.system_cfg.user_tiers.pro,
        }
    }

    /// Whether the job's user, who has `count` active jobs, is below their
    /// concurrent job limit.
    pub open spec fn has_capacity(self, job: Job, count: Option<i64>) -> bool {
        let max = self.limits(job.effective_tier).max_concurrent_jobs;
        max == 0 || count is None || count->0 < max
    }

    /// Returns `true` if the job's user, who has `count` active jobs, is below
    /// their concurrent job limit. A count that could not be had does not block
    /// the job.
    ///
    /// The limit is read from the config for the job's `effective_tier`, so a
    /// demo user with a prepaid pro code is checked against pro limits.
    pub fn user_has_capacity(&self, job: &Job, count: Option<i64>) -> (r: bool)
        ensures
            r == self.has_capacity(*job, count),
    {
        let limits = self.tier_limits(&job.effective_tier);
        if limits.max_concurrent_jobs == 0 {
            return true;
        }
        match count {
            Some(count) => count < 0 || (count as u64) < limits.max_concurrent_jobs,
            None => true,
        }
    }

    /// Whether a step was dispatched.
    pub open spec fn dispatched(
        self,
        after: Scheduler,
        job_id: Uuid,
        step: WorkflowStep,
        ram_after: Float64,
    ) -> bool {
        &&& after.same_config(self)
        &&& self.resources.has_room(step.spec.resources.cpu_cores, ram_after)
        &&& after.resources == self.resources.acquired(step.spec.resources.cpu_cores, ram_after)
        &&& after.active@ == self.active@.insert(job_id)
    }

    /// Whether a step is what follows for a job.
    pub open spec fn plans(self, job: Job, step: definition::StepModel) -> bool {
        definition::follows(
            Some(step),
            job,
            self.workflow_cfg,
            self.images,
            self.system_cfg.paths.archive_root@,
        )
    }

    /// Whether a step of a job is to be started: the job runs no step, the step
    /// is what follows for it, its user is below their limit and there is
    /// headroom.
    pub open spec fn starts(
        self,
        job: Job,
        step: definition::StepModel,
        count: Option<i64>,
        ram_after: Float64,
    ) -> bool {
        &&& !self.active@.contains(job.id)
        &&& self.plans(job, step)
        &&& self.has_capacity(job, count)
        &&& self.resources.has_room(step.spec.resources.cpu_cores, ram_after)
    }

    /// Evaluates a single job, whose user has `count` active jobs, and, if all
    /// conditions are met, takes the resources for its next step, marks the job
    /// as active and gives the step back. `ram_after` is the sum of the gigabytes
    /// in use and those that the next step needs. Otherwise nothing changes.
    pub fn try_dispatch(&mut self, job: &Job, count: Option<i64>, ram_after: Float64) -> (r: Option<
        WorkflowStep,
    >)
        requires
            old(self).wf(),
        ensures
            final(self).wf(),
            match r {
                Some(step) => old(self).starts(*job, step@, count, ram_after) && old(
                    self,
                ).dispatched(*final(self), job.id, step, ram_after),
                None => *final(self) == *old(self) && forall|step: definition::StepModel|
                    !old(self).starts(*job, step, count, ram_after),
            },
    {
        let ghost before = *self;
        let step = match self.plan(job) {
            Some(step) => step,
            None => {
                assert forall|step: definition::StepModel| !before.starts(
                    *job,
                    step,
                    count,
                    ram_after,
                ) by {
                    if before.starts(*job, step, count, ram_after) {
                        definition::next_step_is_unique(
                            None,
                            Some(step),
                            *job,
                            self.workflow_cfg,
                            self.images,
                            self.system_cfg.paths.archive_root@,
                        );
                    }
                }
                return None;
            },
        };
        proof {
            assert forall|other: definition::StepModel| before.plans(*job, other) implies other
                == step@ by {
                definition::next_step_is_unique(
                    Some(step@),
                    Some(other),
                    *job,
                    self.workflow_cfg,
                    self.images,
                    self.system_cfg.paths.archive_root@,
                );
            }
        }
        if !self.user_has_capacity(job, count) {
            return None;
        }
        if !self.resources.try_acquire(step.spec.resources.cpu_cores, ram_after) {
            return None;
        }
        self.active.insert(job.id);
        Some(step)
    }

    /// Whether a step was taken off the books.
    pub open spec fn finished(
        self,
        after: Scheduler,
        job_id: Uuid,
        step: WorkflowStep,
        ram_left: Float64,
    ) -> bool {
        &&& after.same_config(self)
        &&& after.resources == self.resources.released(step.spec.resources.cpu_cores, ram_left)
        &&& after.active@ == self.active@.remove(job_id)
    }

    /// Releases the resources of a step that ended, takes its job off the active
    /// ones, and says what to write to the database: the next state of a step
    /// that succeeded, the error of one that failed. `ram_left` is the difference
    /// of the gigabytes in use and those that the step needed.
    pub fn finish_step(
        &mut self,
        job_id: Uuid,
        step: &WorkflowStep,
        outcome: &StepOutcome,
        ram_left: Float64,
    ) -> (r: StateColumns)
        requires
            old(self).wf(),
        ensures
            final(self).wf(),
            old(self).finished(*final(self), job_id, *step, ram_left),
            ends_step(r, step@.next_state, *outcome),
    {
        let columns = match outcome {
            StepOutcome::Success => {
                if matches!(step.next_state, JobState::Completed) {
                    complete_job()
                } else {
                    advance_job_state(&step.next_state)
                }
            },
            StepOutcome::Failed(error) => fail_job(error),
        };
        self.resources.release(step.spec.resources.cpu_cores, ram_left);
        self.active.remove(job_id);
        columns
    }

    /// When a dispatched step ends, the scheduler is left as it was before: the
    /// cores are free again and the job is no longer active.
    pub proof fn finishing_undoes_dispatch(
        before: Scheduler,
        running: Scheduler,
        after: Scheduler,
        job_id: Uuid,
        step: WorkflowStep,
        ram_after: Float64,
        ram_left: Float64,
    )
        requires
            !before.active@.contains(job_id),
            before.dispatched(running, job_id, step, ram_after),
            running.finished(after, job_id, step, ram_left),
        ensures
            after.same_config(before),
            after.active@ == before.active@,
            after.resources.used_cpu == before.resources.used_cpu,
            after.resources.total_cpu == before.resources.total_cpu,
    {
        assert(after.active@ =~= before.active@);
    }
}

/// A step is started exactly where its job runs none, it is what follows for the job,
/// fewer jobs of its user are active than the tier that the job runs under allows (0
/// allows any number, and so does a count that could not be had), and the cores and
/// the gigabytes then in use are no more than there are.
pub proof fn steps_start_within_the_limits(
    scheduler: Scheduler,
    job: Job,
    step: definition::StepModel,
    count: i64,
    ram_after: Float64,
)
    ensures
        scheduler.starts(job, step, Some(count), ram_after) <==> {
            &&& !scheduler.active@.contains(job.id)
            &&& scheduler.plans(job, step)
            &&& match job.effective_tier {
                UserTier::Demo => scheduler.system_cfg.user_tiers.demo.max_concurrent_jobs == 0
                    || count < scheduler.system_cfg.user_tiers.demo.max_concurrent_jobs,
                UserTier::Free => scheduler.system_cfg.user_tiers.free.max_concurrent_jobs == 0
                    || count < scheduler.system_cfg.user_tiers.free.max_concurrent_jobs,
                UserTier::Pro => scheduler.system_cfg.user_tiers.pro.max_concurrent_jobs == 0
                    || count < scheduler.system_cfg.user_tiers.pro.max_concurrent_jobs,
            }
            &&& scheduler.resources.used_cpu + step.spec.resources.cpu_cores
                <= scheduler.resources.total_cpu
            &&& ram_after.at_most(scheduler.resources.total_ram_gb)
        },
        scheduler.starts(job, step, Some(count), ram_after) ==> scheduler.starts(
            job,
            step,
            None,
            ram_after,
        ),
{
}

/// While a dispatched step runs, its job is active beside those that were, and the
/// cores that it needs are in use beside those that were; what there is in all stays
/// the same.
pub proof fn running_steps_are_on_the_books(
    before: Scheduler,
    running: Scheduler,
    job_id: Uuid,
    step: WorkflowStep,
    ram_after: Float64,
    other: Uuid,
)
    requires
        before.dispatched(running, job_id, step, ram_after),
    ensures
        running.active@.contains(other) <==> other == job_id || before.active@.contains(other),
        running.resources.used_cpu == before.resources.used_cpu + step.spec.resources.cpu_cores,
        running.resources.used_cpu <= running.resources.total_cpu,
        running.resources.used_ram_gb == ram_after,
        ram_after.at_most(running.resources.total_ram_gb),
        running.resources.total_cpu == before.resources.total_cpu,
        running.resources.total_ram_gb == before.resources.total_ram_gb,
{
}

/// When a step ends, its job alone is no longer active, and its cores are free: never
/// more than were in use. What there is in all stays the same.
pub proof fn ended_steps_are_off_the_books(
    running: Scheduler,
    after: Scheduler,
    job_id: Uuid,
    step: WorkflowStep,
    ram_left: Float64,
    other: Uuid,
)
    requires
        running.finished(after, job_id, step, ram_left),
    ensures
        after.active@.contains(other) <==> other != job_id && running.active@.contains(other),
        step.spec.resources.cpu_cores <= running.resources.used_cpu ==> after.resources.used_cpu
            + step.spec.resources.cpu_cores == running.resources.used_cpu,
        step.spec.resources.cpu_cores > running.resources.used_cpu ==> after.resources.used_cpu
            == 0,
        (Float64 { bits: ZERO_BITS }).below(ram_left) ==> after.resources.used_ram_gb == ram_left,
        !(Float64 { bits: ZERO_BITS }).below(ram_left) ==> after.resources.used_ram_gb.bits
            == ZERO_BITS,
        after.resources.total_cpu == running.resources.total_cpu,
        after.resources.total_ram_gb == running.resources.total_ram_gb,
{
}

/// What the database holds of a job whose container has exited: the error with
/// the exit code if that is not 0, else the next state.
pub proof fn exits_are_recorded(
    exit_code: i64,
    after: RunPhase,
    outcome: StepOutcome,
    columns: StateColumns,
    next: JobState,
    logs_root: Seq<char>,
    job_id: Uuid,
    label: Seq<char>,
)
    requires
        !(next is Failed),
        next@.valid(),
        (RunPhase::Remove { exit_code }).goes_on(
            RunEvent::Done,
            after,
            RunAction::Finish(outcome),
            logs_root,
            job_id,
            label,
        ),
        ends_step(columns, next@, outcome),
    ensures
        columns.stored() == Ok::<JobStateModel, JobRowErrorModel>(
            if exit_code == 0 {
                next@
            } else {
                JobStateModel::Failed {
                    error: JobErrorModel::ContainerFailed { exit_code: exit_code as int },
                }
            },
        ),
{
    match outcome {
        StepOutcome::Success => {
            queries::advanced_job_reads_back(next, columns);
        },
        StepOutcome::Failed(error) => {
            queries::failed_job_reads_back(error, columns);
        },
    }
}

} // verus!
