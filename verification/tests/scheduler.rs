use sisar::float64::Float64;
use sisar::ids::Uuid;
use sisar::scheduler::config::{
    validate_system_config, validate_workflow_config, ContainerImagesConfig, DatabaseConfig,
    PathsConfig, ResourceTiersConfig, ResourcesConfig, SchedulerConfig, StepOverride,
    StepResourceConfig, SystemConfig, TierLimitsConfig, UserTiersConfig, WorkflowConfig,
};
use sisar::scheduler::definition::{
    resolve_resources, step_for_state, ContainerImages, ResourceRequirement, WorkflowStep,
};
use sisar::scheduler::pool::{ActiveSet, ResourcePool};
use sisar::scheduler::results::{
    check_parent, result_step, ParentPlan, RequestPlan, ResultsScheduler,
};
use sisar::scheduler::runner::{
    container_name, create_container, log_target, run_step, LogSource, LogTarget, RunAction,
    RunEvent, RunPhase, StepError, StepOutcome,
};
use sisar::scheduler::scheduler::{free_slots, Scheduler};
use sisar::shared::job::{Job, JobError, JobState};
use sisar::shared::result::{ResultRequest, ResultState, ResultType};
use sisar::shared::stage::{IsceStage, MintpyStage, ResourceTier};
use sisar::shared::tier::UserTier;
use sisar::time::Timestamp;

fn float(value: f64) -> Float64 {
    Float64 { bits: value.to_bits() }
}

fn limits(jobs: u64) -> TierLimitsConfig {
    TierLimitsConfig {
        max_aoi_km2: 0,
        max_time_range_days: 0,
        max_concurrent_jobs: jobs,
        max_jobs_per_month: 0,
    }
}

fn system() -> SystemConfig {
    SystemConfig {
        paths: PathsConfig {
            jobs_root: "/jobs".to_string(),
            archive_root: "/data/archive".to_string(),
            logs_root: "/logs".to_string(),
        },
        database: DatabaseConfig { url: "postgres://".to_string(), pool_size: 10 },
        scheduler: SchedulerConfig { poll_interval_secs: 10, max_concurrent_containers: 2 },
        resources: ResourcesConfig { total_cpu_cores: 8, total_ram_gb: float(32.0) },
        containers: ContainerImagesConfig {
            download: "sisar/download".to_string(),
            isce2: "sisar/isce2".to_string(),
            mintpy: "sisar/mintpy".to_string(),
            miaplpy: "sisar/miaplpy".to_string(),
            results: "sisar/results".to_string(),
        },
        user_tiers: UserTiersConfig { demo: limits(1), free: limits(2), pro: limits(0) },
    }
}

fn workflow() -> WorkflowConfig {
    WorkflowConfig {
        tiers: ResourceTiersConfig {
            light: ResourceTiersConfig::default_light(),
            medium: ResourceTiersConfig::default_medium(),
            heavy: ResourceTiersConfig::default_heavy(),
        },
        isce2_overrides: vec![StepOverride {
            stage: "pairs_misreg".to_string(),
            resources: StepResourceConfig { cpu_cores: 6, ram_gb: float(12.0) },
        }],
        mintpy_overrides: vec![],
        miaplpy_overrides: vec![],
        download: WorkflowConfig::default_download_resources(),
    }
}

fn job(workflow: &str, state: JobState) -> Job {
    Job {
        id: Uuid { bits: 1 },
        user_id: Uuid { bits: 2 },
        workflow: workflow.to_string(),
        state,
        effective_tier: UserTier::Free,
        work_dir: "/jobs/1".to_string(),
        created_at: Timestamp { secs: 5, nanos: 0 },
        updated_at: Timestamp { secs: 6, nanos: 0 },
    }
}

fn step(workflow_name: &str, state: JobState) -> Option<WorkflowStep> {
    let images = ContainerImages::new(&system());
    step_for_state(&job(workflow_name, state), &workflow(), &images, "/data/archive".to_string())
}

fn request(result_type: ResultType, params: Option<&str>) -> ResultRequest {
    ResultRequest {
        id: Uuid { bits: 9 },
        job_id: Some(Uuid { bits: 1 }),
        result_type,
        params: params.map(|s| s.to_string()),
        state: ResultState::Queued,
        error: None,
        work_dir: None,
        created_at: Timestamp { secs: 5, nanos: 0 },
        updated_at: Timestamp { secs: 6, nanos: 0 },
    }
}

#[test]
fn scheduler_defaults_are_filled_in() {
    assert_eq!(DatabaseConfig::default_pool_size(), 10);
    assert_eq!(SchedulerConfig::default_poll_interval_secs(), 10);
    assert_eq!(SchedulerConfig::default_max_concurrent_containers(), 16);
    let tiers = vec![
        (ResourceTiersConfig::default_light(), 2, 4.0),
        (ResourceTiersConfig::default_medium(), 4, 16.0),
        (ResourceTiersConfig::default_heavy(), 8, 32.0),
        (WorkflowConfig::default_download_resources(), 2, 4.0),
    ];
    for (tier, cpu, ram) in tiers {
        assert_eq!(tier.cpu_cores, cpu);
        assert_eq!(f64::from_bits(tier.ram_gb.bits), ram);
    }
    assert!(TierLimitsConfig::within_limit(0, 7));
    assert!(!TierLimitsConfig::within_limit(6, 7));
}

#[test]
fn scheduler_configurations_are_validated() {
    assert!(validate_system_config(&system()).is_ok());
    let message = |cfg: SystemConfig| match validate_system_config(&cfg) {
        Err(error) => error.message(),
        Ok(()) => panic!("accepted"),
    };
    let mut cfg = system();
    cfg.resources.total_cpu_cores = 0;
    assert_eq!(message(cfg), "resources.total_cpu_cores must be greater than 0");
    for ram in [0.0, -0.0, -1.0] {
        let mut cfg = system();
        cfg.resources.total_ram_gb = float(ram);
        assert_eq!(message(cfg), "resources.total_ram_gb must be greater than 0");
    }
    let mut cfg = system();
    cfg.scheduler.max_concurrent_containers = 0;
    assert_eq!(message(cfg), "scheduler.max_concurrent_containers must be greater than 0");
    let mut cfg = system();
    cfg.database.url = String::new();
    assert_eq!(message(cfg), "database.url must not be empty");

    assert!(validate_workflow_config(&workflow()).is_ok());
    let mut cfg = workflow();
    cfg.tiers.medium.cpu_cores = 0;
    match validate_workflow_config(&cfg) {
        Err(error) => assert_eq!(
            error.message(),
            "All resource tier cpu_cores values must be greater than 0"
        ),
        Ok(()) => panic!("accepted"),
    }
    let mut cfg = workflow();
    cfg.tiers.heavy.ram_gb = float(0.0);
    match validate_workflow_config(&cfg) {
        Err(error) => assert_eq!(
            error.message(),
            "All resource tier ram_gb values must be greater than 0"
        ),
        Ok(()) => panic!("accepted"),
    }
}

#[test]
fn overrides_come_before_tiers() {
    let cfg = workflow();
    let found = resolve_resources("pairs_misreg", ResourceTier::Light, &cfg.isce2_overrides, &cfg);
    assert_eq!((found.cpu_cores, f64::from_bits(found.ram_gb.bits)), (6, 12.0));
    let found = resolve_resources("other", ResourceTier::Heavy, &cfg.isce2_overrides, &cfg);
    assert_eq!((found.cpu_cores, f64::from_bits(found.ram_gb.bits)), (8, 32.0));
    let converted = ResourceRequirement::from(&cfg.download);
    assert_eq!(converted.cpu_cores, 2);
}

#[test]
fn queued_jobs_are_downloaded() {
    match step("sbas", JobState::Queued) {
        Some(step) => {
            assert_eq!(step.label, "download");
            assert!(matches!(step.next_state, JobState::Downloading));
            assert_eq!(step.spec.image, "sisar/download");
            assert!(step.spec.args.is_empty());
            assert_eq!(step.spec.host_archive, "/data/archive");
            assert_eq!(step.spec.host_workdir, "/jobs/1");
            assert_eq!(step.spec.container_workdir, "/job");
            assert_eq!(step.spec.resources.cpu_cores, 2);
        }
        None => panic!("no step"),
    }
}

#[test]
fn processing_goes_from_stage_to_stage() {
    match step("sbas", JobState::Downloading) {
        Some(step) => {
            assert_eq!(step.label, "isce2.unpack_topo_reference");
            assert_eq!(step.spec.args, vec!["unpack_topo_reference"]);
            assert_eq!(step.spec.host_archive, "/jobs/1");
        }
        None => panic!("no step"),
    }
    match step("sbas", JobState::IsceProcessing { stage: IsceStage::OverlapResample }) {
        Some(step) => {
            assert_eq!(step.label, "isce2.pairs_misreg");
            assert_eq!(step.spec.resources.cpu_cores, 6);
        }
        None => panic!("no step"),
    }
    for name in ["sbas", "ps_insar", "timeseries"] {
        match step(name, JobState::IsceProcessing { stage: IsceStage::PhaseUnwrap }) {
            Some(step) => {
                assert_eq!(step.label, "mintpy.load_data");
                assert_eq!(step.spec.image, "sisar/mintpy");
            }
            None => panic!("no step"),
        }
    }
    match step("other", JobState::IsceProcessing { stage: IsceStage::PhaseUnwrap }) {
        Some(step) => {
            assert_eq!(step.label, "complete");
            assert_eq!(step.spec.image, "");
            assert!(matches!(step.next_state, JobState::Completed));
        }
        None => panic!("no step"),
    }
    match step("ps_insar", JobState::MintpyProcessing { stage: MintpyStage::HdfEos5 }) {
        Some(step) => assert_eq!(step.label, "complete"),
        None => panic!("no step"),
    }
    assert!(step("sbas", JobState::MintpyProcessing { stage: MintpyStage::HdfEos5 }).is_none());
}

#[test]
fn a_job_takes_every_step_once() {
    let mut state = JobState::Queued;
    let mut labels: Vec<String> = vec![];
    while let Some(next) = step("ps_insar", state.duplicate()) {
        labels.push(next.label);
        state = next.next_state;
    }
    assert!(matches!(state, JobState::Completed));
    assert_eq!(labels.len(), 36);
    assert_eq!(labels[0], "download");
    assert_eq!(labels[1], "isce2.unpack_topo_reference");
    assert_eq!(labels[17], "mintpy.load_data");
    assert_eq!(labels[35], "complete");
}

#[test]
fn finished_jobs_have_nothing_to_do() {
    assert!(step("sbas", JobState::Initializing).is_none());
    assert!(step("sbas", JobState::Completed).is_none());
    assert!(step("sbas", JobState::Cancelled).is_none());
    assert!(step("sbas", JobState::Failed { error: JobError::Timeout }).is_none());
}

#[test]
fn pools_hand_out_what_there_is() {
    let mut pool = ResourcePool::new(8, float(32.0));
    assert_eq!(pool.available_cpu(), 8);
    assert!(pool.try_acquire(6, float(16.0)));
    assert_eq!(pool.available_cpu(), 2);
    assert!(!pool.try_acquire(3, float(20.0)));
    assert!(!pool.try_acquire(2, float(33.0)));
    assert!(!pool.try_acquire(2, float(f64::NAN)));
    assert!(!pool.try_acquire(u32::MAX, float(20.0)));
    assert_eq!(pool.used_cpu, 6);
    assert!(pool.try_acquire(2, float(32.0)));
    pool.release(2, float(16.0));
    assert_eq!(pool.used_cpu, 6);
    assert_eq!(f64::from_bits(pool.used_ram_gb.bits), 16.0);
    pool.release(9, float(-1.0));
    assert_eq!(pool.used_cpu, 0);
    assert_eq!(f64::from_bits(pool.used_ram_gb.bits), 0.0);
}

#[test]
fn active_sets_hold_each_id_once() {
    let mut active = ActiveSet::new();
    assert_eq!(active.len(), 0);
    active.insert(Uuid { bits: 1 });
    active.insert(Uuid { bits: 1 });
    active.insert(Uuid { bits: 2 });
    assert_eq!(active.len(), 2);
    assert!(active.contains(Uuid { bits: 1 }));
    active.remove(Uuid { bits: 1 });
    active.remove(Uuid { bits: 7 });
    assert_eq!(active.len(), 1);
    assert!(!active.contains(Uuid { bits: 1 }));
}

#[test]
fn dispatching_takes_and_gives_back() {
    assert_eq!(free_slots(16, 3), 13);
    assert_eq!(free_slots(2, 3), 0);
    let mut scheduler = Scheduler::new(system(), workflow());
    assert_eq!(scheduler.claim_limit(), 2);
    let queued = job("sbas", JobState::Queued);
    let step = match scheduler.plan(&queued) {
        Some(step) => step,
        None => panic!("no step"),
    };
    assert_eq!(step.spec.host_archive, "/data/archive");
    assert_eq!(scheduler.resources.used_ram_gb, float(0.0));
    assert!(scheduler.try_dispatch(&queued, Some(2), float(4.0)).is_none());
    assert_eq!(scheduler.claim_limit(), 2);
    match scheduler.try_dispatch(&queued, Some(1), float(4.0)) {
        Some(started) => assert_eq!(started.label, step.label),
        None => panic!("deferred"),
    }
    assert_eq!(scheduler.claim_limit(), 1);
    assert_eq!(scheduler.resources.used_cpu, 2);
    assert!(scheduler.plan(&queued).is_none());
    assert!(scheduler.try_dispatch(&queued, Some(0), float(4.0)).is_none());
    let mut other = job("sbas", JobState::Queued);
    other.id = Uuid { bits: 3 };
    assert!(scheduler.try_dispatch(&other, Some(0), float(40.0)).is_none());
    other.state = JobState::Completed;
    assert!(scheduler.try_dispatch(&other, Some(0), float(4.0)).is_none());
    assert_eq!(scheduler.resources.used_cpu, 2);
    assert_eq!(scheduler.claim_limit(), 1);
    let columns = scheduler.finish_step(queued.id, &step, &StepOutcome::Success, float(0.0));
    assert_eq!(columns.job_state, "downloading");
    assert_eq!(scheduler.claim_limit(), 2);
    assert_eq!(scheduler.resources.used_cpu, 0);
    let failed = StepOutcome::Failed(JobError::ContainerFailed { exit_code: 9 });
    let columns = scheduler.finish_step(queued.id, &step, &failed, float(0.0));
    assert_eq!(columns.job_state, "failed");
    assert_eq!(columns.job_error_message.as_deref(), Some("9"));
}

#[test]
fn users_stay_below_their_limit() {
    let scheduler = Scheduler::new(system(), workflow());
    let mut mine = job("sbas", JobState::Queued);
    assert!(scheduler.user_has_capacity(&mine, Some(1)));
    assert!(!scheduler.user_has_capacity(&mine, Some(2)));
    assert!(scheduler.user_has_capacity(&mine, None));
    mine.effective_tier = UserTier::Pro;
    assert!(scheduler.user_has_capacity(&mine, Some(1000)));
    assert_eq!(scheduler.tier_limits(&UserTier::Demo).max_concurrent_jobs, 1);
    assert_eq!(scheduler.tier_limits(&UserTier::Free).max_concurrent_jobs, 2);
}

#[test]
fn containers_are_named_and_configured() {
    assert_eq!(
        container_name(Uuid { bits: 0x1234 }, "isce2.phase:unwrap"),
        "sisar-00000000-0000-0000-0000-000000001234-isce2-phase-unwrap"
    );
    let step = match step("sbas", JobState::Downloading) {
        Some(step) => step,
        None => panic!("no step"),
    };
    let config = create_container(&step.spec);
    assert_eq!(config.image, "sisar/isce2");
    assert_eq!(config.cmd, Some(vec!["unpack_topo_reference".to_string()]));
    assert_eq!(config.working_dir, "/job");
    assert_eq!(config.binds, vec!["/jobs/1:/job", "/jobs/1:/archive"]);
    assert_eq!((config.cpu_quota, config.cpu_period), (200_000, 100_000));
    assert_eq!(config.memory, 4 * 1024 * 1024 * 1024);
    assert_eq!(config.memory_swap, config.memory);
    assert_eq!((config.ulimit.name, config.ulimit.soft, config.ulimit.hard), ("nofile", 4096, 4096));
    assert!(matches!(log_target(LogSource::StdOut), Some(LogTarget::StdOut)));
    assert!(matches!(log_target(LogSource::StdErr), Some(LogTarget::StdErr)));
    assert!(matches!(log_target(LogSource::Console), Some(LogTarget::StdOut)));
    assert!(log_target(LogSource::StdIn).is_none());
}

fn started() -> (RunPhase, RunAction) {
    match step("sbas", JobState::Queued) {
        Some(step) => run_step(Uuid { bits: 1 }, &step),
        None => panic!("no step"),
    }
}

#[test]
fn steps_run_to_their_exit() {
    let id = Uuid { bits: 1 };
    let (mut phase, action) = started();
    match action {
        RunAction::Create { name, config } => {
            assert_eq!(name, "sisar-00000000-0000-0000-0000-000000000001-download");
            assert_eq!(config.cmd, None);
        }
        _ => panic!("wrong action"),
    }
    assert!(matches!(phase.step(RunEvent::Done, "/logs", id, "download"), RunAction::Start));
    match phase.step(RunEvent::Done, "/logs", id, "download") {
        RunAction::CreateLogDirectory(dir) => {
            assert_eq!(dir, "/logs/00000000-0000-0000-0000-000000000001")
        }
        _ => panic!("wrong action"),
    }
    match phase.step(RunEvent::Done, "/logs", id, "download") {
        RunAction::StreamLogs { stdout, stderr } => {
            assert_eq!(stdout, "/logs/00000000-0000-0000-0000-000000000001/download.stdout");
            assert_eq!(stderr, "/logs/00000000-0000-0000-0000-000000000001/download.stderr");
        }
        _ => panic!("wrong action"),
    }
    assert!(matches!(
        phase.step(RunEvent::Done, "/logs", id, "download"),
        RunAction::WaitForExit
    ));
    assert!(matches!(
        phase.step(RunEvent::Exited(Some(0)), "/logs", id, "download"),
        RunAction::Remove
    ));
    assert!(matches!(
        phase.step(RunEvent::Done, "/logs", id, "download"),
        RunAction::Finish(StepOutcome::Success)
    ));
}

#[test]
fn steps_fail_with_a_reason() {
    let id = Uuid { bits: 1 };
    let outcome = |mut phase: RunPhase, event: RunEvent| {
        match phase.step(event, "/logs", id, "download") {
            RunAction::Finish(StepOutcome::Failed(error)) => error.message(),
            _ => panic!("no failure"),
        }
    };
    assert_eq!(
        outcome(RunPhase::Remove { exit_code: 7 }, RunEvent::Done),
        "container exited with non-zero status: 7"
    );
    assert_eq!(
        outcome(RunPhase::Create, RunEvent::Failed(StepError::Docker("no image".to_string()))),
        "container failed to start: no image"
    );
    assert_eq!(
        outcome(
            RunPhase::LogDirectory,
            RunEvent::Failed(StepError::LogFileCreate {
                path: "/logs/1".to_string(),
                source: "denied".to_string(),
            })
        ),
        "internal scheduler error: failed to create log file at /logs/1: denied"
    );
    assert_eq!(
        outcome(RunPhase::Logs, RunEvent::Failed(StepError::LogWrite("full".to_string()))),
        "internal scheduler error: log write error: full"
    );
    assert_eq!(
        outcome(RunPhase::Exit, RunEvent::Exited(None)),
        "container failed to start: Docker responded with status code 500: wait stream ended \
         without a response"
    );
    match (StepError::NonZeroExit { exit_code: 3 }).into_job_error() {
        JobError::ContainerFailed { exit_code } => assert_eq!(exit_code, 3),
        _ => panic!("wrong error"),
    }
}

#[test]
fn sentinels_run_no_container() {
    let bridge = match step("other", JobState::IsceProcessing { stage: IsceStage::PhaseUnwrap }) {
        Some(step) => step,
        None => panic!("no step"),
    };
    let (phase, action) = run_step(Uuid { bits: 1 }, &bridge);
    assert!(matches!(phase, RunPhase::Ended));
    assert!(matches!(action, RunAction::Finish(StepOutcome::Success)));
}

#[test]
fn result_requests_find_their_directory() {
    let mut scheduler = ResultsScheduler::new(system());
    let mut demo = request(ResultType::Velocity, None);
    demo.work_dir = Some("/sisar/demos/etna".to_string());
    match scheduler.plan(&demo) {
        RequestPlan::UseDirectory(dir) => assert_eq!(dir, "/sisar/demos/etna"),
        _ => panic!("wrong plan"),
    }
    let regular = request(ResultType::Velocity, None);
    assert!(matches!(scheduler.plan(&regular), RequestPlan::FetchJob(Uuid { bits: 1 })));
    let mut lost = request(ResultType::Velocity, None);
    lost.job_id = None;
    match scheduler.plan(&lost) {
        RequestPlan::Fail(message) => assert_eq!(message, "no job_id and no work_dir"),
        _ => panic!("wrong plan"),
    }
    assert_eq!(scheduler.claim_limit(), 2);
    scheduler.begin(regular.id);
    assert_eq!(scheduler.claim_limit(), 1);
    assert!(matches!(scheduler.plan(&regular), RequestPlan::Skip));
    let done = scheduler.finish(regular.id, &StepOutcome::Success);
    assert_eq!((done.state.as_str(), done.error), ("completed", Some(None)));
    assert_eq!(scheduler.claim_limit(), 2);
    let failed = scheduler.finish(regular.id, &StepOutcome::Failed(JobError::Timeout));
    assert_eq!(failed.state, "failed");
    assert_eq!(failed.error, Some(Some("container timed out".to_string())));
}

#[test]
fn parents_have_to_be_completed() {
    match check_parent(Some(job("sbas", JobState::Completed))) {
        ParentPlan::UseDirectory(dir) => assert_eq!(dir, "/jobs/1"),
        _ => panic!("wrong plan"),
    }
    assert!(matches!(check_parent(Some(job("sbas", JobState::Queued))), ParentPlan::Defer));
    match check_parent(None) {
        ParentPlan::Fail(message) => assert_eq!(message, "parent job not found"),
        _ => panic!("wrong plan"),
    }
}

#[test]
fn results_are_made_by_containers() {
    match result_step(&request(ResultType::Velocity, None), "/jobs/1", "sisar/results") {
        Ok(step) => {
            assert_eq!(step.label, "results.velocity");
            assert_eq!(step.spec.image, "sisar/results");
            assert_eq!(
                step.spec.args,
                vec!["velocity", "--output", "/job/results/velocity.png"]
            );
            assert_eq!(step.spec.host_workdir, "/jobs/1");
        }
        Err(_) => panic!("refused"),
    }
    let point = request(ResultType::Timeseries, Some("{\"lat\": 1.5, \"lon\": -2}"));
    match result_step(&point, "/jobs/1", "sisar/results") {
        Ok(step) => assert_eq!(
            step.spec.args,
            vec![
                "timeseries",
                "--lat",
                "1.5",
                "--lon",
                "-2",
                "--output",
                "/job/results/timeseries_1.5_-2_",
            ]
        ),
        Err(_) => panic!("refused"),
    }
    match result_step(&request(ResultType::Dem, None), "/jobs/1", "sisar/results") {
        Err(message) => assert_eq!(message, "result type 'dem' is not yet implemented"),
        Ok(_) => panic!("accepted"),
    }
}
