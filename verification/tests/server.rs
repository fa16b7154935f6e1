use sisar::float64::{Float64, Number};
use sisar::ids::Uuid;
use sisar::server::accounts::{
    check_tier, create_code, get_code_info, get_me, set_user_tier, CreateCodeRequest,
    SetTierRequest, UserMeResponse,
};
use sisar::server::auth::{
    authenticate, authenticate_admin, extract_bearer, Identification, IdentifyAction,
    IdentifyEvent, TelegramIdentifyResponse,
};
use sisar::server::config::{
    validate, AsfConfig, AuthConfig, ConfigError, ContainersConfig, DatabaseConfig, DefaultsConfig,
    HttpConfig, InterfaceSecret, PathsConfig, ServerConfig, TierLimitsConfig, UserTiersConfig,
};
use sisar::server::demos::{
    check_demo_request, check_point, demo_file, demo_path, demo_status, enqueue_demo_result,
    existing_demo, list_demos, velocity_path, DemoPlan, DemoResultRequestBody, DirectoryEntry,
};
use sisar::server::error::AppError;
use sisar::server::jobs::{cancel_job, get_job_handler, list_jobs, JobResponse};
use sisar::server::results::{
    completed_job, get_timeseries, get_velocity, run_results_container, serve_file,
    ContainerAction, ContainerEvent, ContainerRun, WaitEnd,
    TimeseriesQuery,
};
use sisar::server::submit::{
    check_month, check_size, count_jobs_this_month, fetch_user_tier, map_search_error, parameters,
    resolve_effective_tier, Action, CodeRow, Event, Phase, Submission,
};
use sisar::shared::job::{Job, JobError, JobState};
use sisar::shared::queries::QueryError;
use sisar::shared::result::{OutputFile, ResultRequest, ResultState, ResultType};
use sisar::shared::stage::IsceStage;
use sisar::shared::tier::UserTier;
use sisar::shared::types::{
    BoundingBoxError, FlightPathError, JobRequest, ProcessingWorkflow, TimeRangeError,
};
use sisar::time::{NaiveDate, Timestamp};

fn number(value: f64) -> Number {
    Number { value: Float64 { bits: value.to_bits() }, text: format!("{}", value) }
}

fn at(secs: i64) -> Timestamp {
    Timestamp { secs, nanos: 0 }
}

fn limits(n: u64) -> TierLimitsConfig {
    TierLimitsConfig {
        max_aoi_km2: n,
        max_time_range_days: n,
        max_concurrent_jobs: n,
        max_jobs_per_month: n,
    }
}

fn config() -> ServerConfig {
    ServerConfig {
        server: HttpConfig { host: "127.0.0.1".to_string(), port: 8080 },
        database: DatabaseConfig { url: "postgres://".to_string(), pool_size: 10 },
        paths: PathsConfig {
            jobs_root: "/jobs".to_string(),
            archive_root: "/archive".to_string(),
            demos_root: "/sisar/demos".to_string(),
        },
        auth: AuthConfig {
            interface_tokens: vec![
                InterfaceSecret { name: "telegram".to_string(), token: "aaa".to_string() },
                InterfaceSecret { name: "admin".to_string(), token: "bbb".to_string() },
            ],
        },
        asf: AsfConfig { endpoint: "https://asf".to_string() },
        defaults: DefaultsConfig { range_looks: 20, azimuth_looks: 5, connections: 1 },
        containers: ContainersConfig { results: "sisar/results".to_string() },
        user_tiers: UserTiersConfig { demo: limits(10), free: limits(100), pro: limits(0) },
    }
}

fn job_request() -> JobRequest {
    JobRequest {
        sensor: None,
        workflow: None,
        path: None,
        range_looks: None,
        azimuth_looks: Some(7),
        connections: None,
        prepaid_code: None,
        north: number(2.0),
        south: number(1.0),
        east: number(4.0),
        west: number(3.0),
        start: NaiveDate { days: 700 },
        end: NaiveDate { days: 750 },
    }
}

fn job(state: JobState) -> Job {
    Job {
        id: Uuid { bits: 1 },
        user_id: Uuid { bits: 2 },
        workflow: "sbas".to_string(),
        state,
        effective_tier: UserTier::Free,
        work_dir: "/jobs/1".to_string(),
        created_at: at(5),
        updated_at: at(6),
    }
}

fn code(used: i32, expires_at: Option<Timestamp>) -> CodeRow {
    CodeRow { granted_tier: "pro".to_string(), expires_at, total_jobs: 3, used_jobs: used }
}

fn result_request(state: ResultState, result_type: ResultType, params: Option<&str>) -> ResultRequest {
    ResultRequest {
        id: Uuid { bits: 9 },
        job_id: None,
        result_type,
        params: params.map(|s| s.to_string()),
        state,
        error: None,
        work_dir: Some("/sisar/demos/etna".to_string()),
        created_at: at(5),
        updated_at: at(6),
    }
}

fn answer(error: AppError) -> (u16, String) {
    let response = error.into_response();
    (response.status, response.error)
}

// --- errors ---

#[test]
fn errors_have_statuses_and_messages() {
    let cases = vec![
        (
            AppError::InvalidBoundingBox(BoundingBoxError::InvalidLatSpan {
                north: number(1.0),
                south: number(2.0),
            }),
            400,
            "invalid bounding box: north (1) must be greater than south (2)",
        ),
        (
            AppError::InvalidTimeRange(TimeRangeError::InvertedBounds),
            400,
            "invalid time range: start date must be before or equal to end date",
        ),
        (AppError::Validation("bad".to_string()), 400, "bad"),
        (AppError::Unauthorized, 401, "missing or invalid bearer token"),
        (AppError::TierLimitExceeded("too big".to_string()), 403, "too big"),
        (AppError::JobNotFound, 404, "job not found"),
        (AppError::ResultNotFound("gone".to_string()), 404, "gone"),
        (AppError::CodeNotFound, 404, "prepaid code not found"),
        (AppError::InvalidPrepaidCode, 409, "prepaid code already redeemed or invalid"),
        (AppError::CodeExhausted, 409, "prepaid code has no remaining uses"),
        (
            AppError::NoImagesFound,
            422,
            "no SAR images found for the given bounds and time range",
        ),
        (
            AppError::FlightPath(FlightPathError::InvalidPath),
            422,
            "flight path error: the specified path has insufficient coverage for the given \
             bounds; leave path unset for automatic selection",
        ),
        (AppError::Database("secret".to_string()), 500, "internal server error"),
        (AppError::Query(QueryError::Sqlx("secret".to_string())), 500, "internal server error"),
        (AppError::Io("secret".to_string()), 500, "internal server error"),
        (AppError::Internal("secret".to_string()), 500, "internal server error"),
    ];
    for (error, status, message) in cases {
        assert_eq!(answer(error), (status, message.to_string()));
    }
}

// --- configuration ---

#[test]
fn defaults_are_filled_in() {
    assert_eq!(HttpConfig::default_host(), "127.0.0.1");
    assert_eq!(HttpConfig::default_port(), 8080);
    assert_eq!(DatabaseConfig::default_pool_size(), 10);
    assert_eq!(PathsConfig::default_demos_root(), "/sisar/demos");
    assert_eq!(
        AsfConfig::default_endpoint(),
        "https://api.daac.asf.alaska.edu/services/search/param"
    );
    assert_eq!(DefaultsConfig::default_range_looks(), 20);
    assert_eq!(DefaultsConfig::default_azimuth_looks(), 5);
    assert_eq!(DefaultsConfig::default_connections(), 1);
    assert_eq!(TimeseriesQuery::default_format(), "png");
    assert_eq!(config().server.bind_addr(), "127.0.0.1:8080");
}

#[test]
fn configurations_are_validated() {
    assert!(validate(&config()).is_ok());
    let mut cfg = config();
    cfg.database.url = String::new();
    match validate(&cfg) {
        Err(error) => assert_eq!(error.message(), "database.url must not be empty"),
        Ok(()) => panic!("accepted"),
    }
    let mut cfg = config();
    cfg.auth.interface_tokens = vec![];
    match validate(&cfg) {
        Err(error) => assert_eq!(
            error.message(),
            "auth.interface_tokens must contain at least one entry"
        ),
        Ok(()) => panic!("accepted"),
    }
    for token in ["", "CHANGE_ME", "CHANGE_ME_NOW"] {
        let mut cfg = config();
        cfg.auth.interface_tokens[1].token = token.to_string();
        match validate(&cfg) {
            Err(error) => {
                assert!(matches!(error, ConfigError::TokenNotSet(_)));
                assert_eq!(
                    error.message(),
                    "auth.interface_tokens.admin has not been set to a real secret"
                );
            }
            Ok(()) => panic!("accepted"),
        }
    }
    let mut cfg = config();
    cfg.containers.results = String::new();
    match validate(&cfg) {
        Err(error) => assert_eq!(error.message(), "containers.results must not be empty"),
        Ok(()) => panic!("accepted"),
    }
}

#[test]
fn zero_is_no_limit() {
    assert!(TierLimitsConfig::within_limit(0, u64::MAX));
    assert!(TierLimitsConfig::within_limit(5, 5));
    assert!(!TierLimitsConfig::within_limit(5, 6));
    let cfg = config();
    assert_eq!(cfg.user_tiers.for_tier("demo").map(|l| l.max_aoi_km2), Some(10));
    assert_eq!(cfg.user_tiers.for_tier("free").map(|l| l.max_aoi_km2), Some(100));
    assert_eq!(cfg.user_tiers.for_tier("pro").map(|l| l.max_aoi_km2), Some(0));
    assert!(cfg.user_tiers.for_tier("gold").is_none());
}

// --- authentication ---

#[test]
fn tokens_identify_interfaces() {
    let auth = config().auth;
    assert_eq!(extract_bearer(Some("Bearer aaa")).as_deref(), Some("aaa"));
    assert_eq!(extract_bearer(Some("bearer aaa")), None);
    assert_eq!(extract_bearer(None), None);
    assert_eq!(auth.identify_token("aaa"), Some("telegram"));
    assert_eq!(auth.identify_token("ccc"), None);
    match authenticate(&auth, Some("Bearer aaa")) {
        Ok(token) => assert_eq!(token.0, "telegram"),
        Err(_) => panic!("refused"),
    }
    assert!(matches!(authenticate(&auth, Some("Bearer ccc")), Err(AppError::Unauthorized)));
    assert!(matches!(authenticate(&auth, None), Err(AppError::Unauthorized)));
    match authenticate_admin(&auth, Some("Bearer bbb")) {
        Ok(token) => assert_eq!(token.0, "admin"),
        Err(_) => panic!("refused"),
    }
    assert!(matches!(authenticate_admin(&auth, Some("Bearer aaa")), Err(AppError::Unauthorized)));
}

#[test]
fn telegram_users_are_identified() {
    let row = || TelegramIdentifyResponse { user_id: Uuid { bits: 4 }, tier: "pro".to_string() };
    let mut known = Identification::Lookup;
    match known.step(IdentifyEvent::Found(Some(row())), false) {
        IdentifyAction::Respond(response) => assert_eq!(response.tier, "pro"),
        _ => panic!("wrong action"),
    }
    let mut named = Identification::Lookup;
    assert!(matches!(
        named.step(IdentifyEvent::Found(Some(row())), true),
        IdentifyAction::UpdateName
    ));
    match named.step(IdentifyEvent::NameUpdated, true) {
        IdentifyAction::Respond(response) => assert_eq!(response.user_id, Uuid { bits: 4 }),
        _ => panic!("wrong action"),
    }
    let mut unknown = Identification::Lookup;
    assert!(matches!(
        unknown.step(IdentifyEvent::Found(None), true),
        IdentifyAction::InsertUser
    ));
    assert!(matches!(
        unknown.step(IdentifyEvent::UserInserted(Uuid { bits: 7 }), true),
        IdentifyAction::InsertIdentity(Uuid { bits: 7 })
    ));
    match unknown.step(IdentifyEvent::IdentityInserted, true) {
        IdentifyAction::Respond(response) => {
            assert_eq!(response.user_id, Uuid { bits: 7 });
            assert_eq!(response.tier, "free");
        }
        _ => panic!("wrong action"),
    }
}

fn identify(
    table: &mut Vec<(Uuid, String)>,
    inserts: &mut usize,
    has_name: bool,
) -> TelegramIdentifyResponse {
    let found = table
        .first()
        .map(|(user_id, tier)| TelegramIdentifyResponse { user_id: *user_id, tier: tier.clone() });
    let mut phase = Identification::Lookup;
    let mut event = IdentifyEvent::Found(found);
    loop {
        event = match phase.step(event, has_name) {
            IdentifyAction::UpdateName => IdentifyEvent::NameUpdated,
            IdentifyAction::InsertUser => {
                *inserts += 1;
                IdentifyEvent::UserInserted(Uuid { bits: 9 })
            }
            IdentifyAction::InsertIdentity(user_id) => {
                *inserts += 1;
                table.push((user_id, "free".to_string()));
                IdentifyEvent::IdentityInserted
            }
            IdentifyAction::Respond(response) => return response,
        };
    }
}

#[test]
fn identifying_again_gives_the_same_user() {
    let (mut table, mut inserts) = (vec![], 0);
    assert_eq!(identify(&mut table, &mut inserts, false).user_id, Uuid { bits: 9 });
    assert_eq!(inserts, 2);
    for has_name in [true, false] {
        assert_eq!(identify(&mut table, &mut inserts, has_name).user_id, Uuid { bits: 9 });
    }
    assert_eq!((inserts, table.len()), (2, 1));
}

// --- accounts ---

#[test]
fn codes_are_created_for_known_tiers() {
    let body = |tier: &str, jobs: i32| CreateCodeRequest {
        granted_tier: tier.to_string(),
        total_jobs: jobs,
        issued_to: None,
        expires_at: None,
    };
    assert!(create_code(&body("pro", 1)).is_ok());
    match create_code(&body("gold", 0)) {
        Err(error) => assert_eq!(
            answer(error),
            (
                400,
                "invalid granted_tier 'gold': must be one of demo, free, pro".to_string()
            )
        ),
        Ok(()) => panic!("accepted"),
    }
    match create_code(&body("free", 0)) {
        Err(error) => {
            assert_eq!(answer(error), (400, "total_jobs must be at least 1".to_string()))
        }
        Ok(()) => panic!("accepted"),
    }
}

#[test]
fn tiers_are_set_on_known_users() {
    assert!(check_tier(&SetTierRequest { tier: "demo".to_string() }).is_ok());
    match check_tier(&SetTierRequest { tier: "x".to_string() }) {
        Err(error) => assert_eq!(
            answer(error),
            (400, "invalid tier 'x': must be one of demo, free, pro".to_string())
        ),
        Ok(()) => panic!("accepted"),
    }
    assert!(set_user_tier(1).is_ok());
    assert!(matches!(set_user_tier(0), Err(AppError::JobNotFound)));
    assert!(matches!(get_me(None), Err(AppError::JobNotFound)));
    let me = UserMeResponse {
        user_id: Uuid { bits: 1 },
        display_name: None,
        tier: "free".to_string(),
    };
    assert!(matches!(get_me(Some(me)), Ok(me) if me.tier == "free"));
}

#[test]
fn codes_tell_what_is_left() {
    let id = Uuid { bits: 5 };
    match get_code_info(id, Some(code(1, None)), at(100)) {
        Ok(info) => {
            assert_eq!(info.code, id);
            assert_eq!(info.capacity_tier, "pro");
            assert_eq!((info.total_jobs, info.used_jobs, info.remaining_jobs), (3, 1, 2));
            assert!(info.is_valid);
        }
        Err(_) => panic!("refused"),
    }
    match get_code_info(id, Some(code(4, None)), at(100)) {
        Ok(info) => {
            assert_eq!(info.remaining_jobs, 0);
            assert!(!info.is_valid);
        }
        Err(_) => panic!("refused"),
    }
    match get_code_info(id, Some(code(1, Some(at(99)))), at(100)) {
        Ok(info) => assert!(!info.is_valid),
        Err(_) => panic!("refused"),
    }
    assert!(matches!(get_code_info(id, None, at(100)), Err(AppError::CodeNotFound)));
}

// --- jobs ---

#[test]
fn jobs_are_shown() {
    let shown = JobResponse::from(job(JobState::IsceProcessing { stage: IsceStage::PhaseUnwrap }));
    assert_eq!(shown.state, "isce_processing");
    assert_eq!(shown.stage.as_deref(), Some("phase_unwrap"));
    assert_eq!(shown.error, None);
    assert_eq!(shown.effective_tier, "free");
    let failed = JobState::Failed { error: JobError::ContainerFailed { exit_code: 2 } };
    let shown = JobResponse::from(job(failed));
    assert_eq!(shown.state, "failed");
    assert_eq!(shown.stage, None);
    assert_eq!(shown.error.as_deref(), Some("container exited with non-zero status: 2"));
    assert!(matches!(get_job_handler(None), Err(AppError::JobNotFound)));
    assert!(matches!(get_job_handler(Some(job(JobState::Queued))), Ok(j) if j.state == "queued"));
    let all = list_jobs(vec![job(JobState::Queued), job(JobState::Completed)]);
    assert_eq!(all.len(), 2);
    assert_eq!(all[1].state, "completed");
}

#[test]
fn finished_jobs_are_not_cancelled() {
    assert!(cancel_job(Some(job(JobState::Downloading))).is_ok());
    assert!(cancel_job(Some(job(JobState::Initializing))).is_ok());
    match cancel_job(Some(job(JobState::Completed))) {
        Err(error) => assert_eq!(
            answer(error),
            (400, "job is already in a terminal state and cannot be cancelled".to_string())
        ),
        Ok(()) => panic!("accepted"),
    }
    assert!(matches!(cancel_job(None), Err(AppError::JobNotFound)));
}

// --- results ---

#[test]
fn only_completed_jobs_have_results() {
    assert!(matches!(completed_job(None), Err(AppError::JobNotFound)));
    match completed_job(Some(job(JobState::Queued))) {
        Err(error) => assert_eq!(answer(error), (404, "job is not yet completed".to_string())),
        Ok(_) => panic!("accepted"),
    }
    match get_velocity(Some(job(JobState::Completed))) {
        Ok(file) => {
            assert_eq!(file.path, "/jobs/1/results/velocity.png");
            assert_eq!(file.mime, "image/png");
        }
        Err(_) => panic!("refused"),
    }
    assert!(get_velocity(Some(job(JobState::Cancelled))).is_err());
}

#[test]
fn timeseries_are_made_by_a_container() {
    let query = |format: &str| TimeseriesQuery {
        lat: "1.5".to_string(),
        lon: "-2".to_string(),
        format: format.to_string(),
    };
    let id = Uuid { bits: 1 };
    match get_timeseries(id, Some(job(JobState::Completed)), &query("csv"), "img") {
        Ok(plan) => {
            assert_eq!(
                plan.container.name,
                "sisar-00000000-0000-0000-0000-000000000001-results"
            );
            assert_eq!(plan.container.image, "img");
            assert_eq!(plan.container.cmd, vec!["1.5", "-2", "csv"]);
            assert_eq!(plan.container.binds, vec!["/jobs/1:/job:rw"]);
            assert_eq!(plan.container.network_mode, "none");
            assert_eq!(plan.file.path, "/jobs/1/results/timeseries.csv");
            assert_eq!(plan.file.mime, "text/csv");
        }
        Err(_) => panic!("refused"),
    }
    match get_timeseries(id, Some(job(JobState::Completed)), &query("pdf"), "img") {
        Err(error) => assert_eq!(
            answer(error),
            (400, "unsupported format 'pdf'; use 'png' or 'csv'".to_string())
        ),
        Ok(_) => panic!("accepted"),
    }
    assert!(get_timeseries(id, Some(job(JobState::Queued)), &query("png"), "img").is_err());
    assert!(run_results_container(&WaitEnd::Exited(0)).is_ok());
    match run_results_container(&WaitEnd::Exited(3)) {
        Err(AppError::Internal(m)) => assert_eq!(m, "results container exited with code 3"),
        _ => panic!("wrong error"),
    }
    assert!(serve_file("/a.png", true).is_ok());
    match serve_file("/a.png", false) {
        Err(AppError::ResultNotFound(m)) => assert_eq!(m, "result file not found at /a.png"),
        _ => panic!("wrong error"),
    }
}

fn waiting() -> ContainerRun {
    let (mut run, action) = ContainerRun::start();
    assert!(matches!(action, ContainerAction::Create));
    assert!(matches!(run.step(ContainerEvent::Done), ContainerAction::Start));
    assert!(matches!(run.step(ContainerEvent::Done), ContainerAction::Wait));
    run
}

fn finish(action: ContainerAction) -> Option<String> {
    match action {
        ContainerAction::Finish(Ok(())) => None,
        ContainerAction::Finish(Err(AppError::Internal(m))) => Some(m),
        _ => panic!("wrong action"),
    }
}

#[test]
fn started_results_containers_are_removed() {
    let failed = || ContainerEvent::Failed("no daemon".to_string());
    let mut run = waiting();
    assert!(matches!(run.step(failed()), ContainerAction::Remove));
    assert_eq!(
        finish(run.step(ContainerEvent::Done)).as_deref(),
        Some("wait results container: no daemon")
    );
    let mut run = waiting();
    assert!(matches!(run.step(ContainerEvent::Exited(Some(0))), ContainerAction::Remove));
    assert_eq!(finish(run.step(failed())), None);
    let mut run = waiting();
    assert!(matches!(run.step(ContainerEvent::Exited(None)), ContainerAction::Remove));
    assert_eq!(
        finish(run.step(failed())).as_deref(),
        Some("results container exited with code -1")
    );
    let (mut run, _) = ContainerRun::start();
    assert_eq!(
        finish(run.step(failed())).as_deref(),
        Some("create results container: no daemon")
    );
    assert!(matches!(run, ContainerRun::Done));
    let (mut run, _) = ContainerRun::start();
    run.step(ContainerEvent::Done);
    assert_eq!(
        finish(run.step(failed())).as_deref(),
        Some("start results container: no daemon")
    );
}

// --- demos ---

#[test]
fn demo_names_do_not_leave_the_root() {
    assert_eq!(demo_path("/sisar/demos", "etna").ok().as_deref(), Some("/sisar/demos/etna"));
    for name in ["a/b", "..", "a\\b", "a..b", "/etc"] {
        match demo_path("/sisar/demos", name) {
            Err(AppError::Validation(m)) => assert_eq!(m, "invalid demo name"),
            _ => panic!("{} accepted", name),
        }
    }
    assert!(existing_demo("/x".to_string(), true).is_ok());
    assert!(matches!(existing_demo("/x".to_string(), false), Err(AppError::JobNotFound)));
    assert_eq!(velocity_path("/sisar/demos/etna"), "/sisar/demos/etna/results/velocity.png");
}

#[test]
fn demos_are_listed_by_name() {
    let entry = |name: Option<&str>, is_dir: bool, has_velocity: bool| DirectoryEntry {
        name: name.map(|s| s.to_string()),
        is_dir,
        has_velocity,
    };
    let all = list_demos(&vec![
        entry(Some("vesuvio"), true, true),
        entry(Some("etna"), true, true),
        entry(Some("raw"), true, false),
        entry(Some("file"), false, true),
        entry(None, true, true),
    ]);
    let names: Vec<&str> = all.demos.iter().map(|d| d.name.as_str()).collect();
    assert_eq!(names, vec!["etna", "vesuvio"]);
}

#[test]
fn demo_requests_are_checked() {
    let body = |kind: &str, params: Option<&str>| DemoResultRequestBody {
        result_type: kind.to_string(),
        params: params.map(|s| s.to_string()),
    };
    let message = |kind: &str, params: Option<&str>| {
        match enqueue_demo_result(body(kind, params), "/sisar/demos/etna", false) {
            Err(AppError::Validation(m)) => m,
            _ => panic!("accepted"),
        }
    };
    assert_eq!(
        message("dem", None),
        "unknown result_type 'dem' for demos; valid: velocity, timeseries"
    );
    assert_eq!(
        message("timeseries", None),
        "timeseries requires params: { \"lat\": <f64>, \"lon\": <f64> }"
    );
    assert_eq!(
        message("timeseries", Some("{\"lat\": 1}")),
        "timeseries params must include numeric 'lat' and 'lon' fields"
    );
    assert_eq!(
        message("timeseries", Some("{\"lat\": 90.5, \"lon\": 0}")),
        "lat must be in [-90, 90]; got 90.5"
    );
    assert_eq!(
        message("timeseries", Some("{\"lat\": 9.5, \"lon\": -181}")),
        "lon must be in [-180, 180]; got -181"
    );
    assert!(check_point(&Some(number(1.0)), &Some(number(2.0))).is_ok());
    assert!(check_point(&Some(number(1.0)), &None).is_err());
    match enqueue_demo_result(
        body("timeseries", Some("{\"lat\": 1, \"lon\": 2}")),
        "/sisar/demos/etna",
        true,
    ) {
        Ok(DemoPlan::Enqueue(new)) => {
            assert_eq!(new.job_id, None);
            assert_eq!(new.result_type, "timeseries");
            assert_eq!(new.state, "queued");
            assert_eq!(new.work_dir.as_deref(), Some("/sisar/demos/etna"));
            assert_eq!(new.params.as_deref(), Some("{\"lat\": 1, \"lon\": 2}"));
        }
        _ => panic!("wrong plan"),
    }
    match enqueue_demo_result(body("velocity", None), "/sisar/demos/etna", true) {
        Ok(DemoPlan::ServeVelocity(path)) => {
            assert_eq!(path, "/sisar/demos/etna/results/velocity.png")
        }
        _ => panic!("wrong plan"),
    }
    assert!(matches!(
        enqueue_demo_result(body("velocity", None), "/sisar/demos/etna", false),
        Ok(DemoPlan::Enqueue(_))
    ));
}

#[test]
fn demo_results_are_polled_and_served() {
    let dir = "/sisar/demos/etna";
    match check_demo_request(None, dir) {
        Err(AppError::ResultNotFound(m)) => assert_eq!(m, "result request not found"),
        _ => panic!("wrong error"),
    }
    let other = result_request(ResultState::Queued, ResultType::Velocity, None);
    match check_demo_request(Some(other), "/sisar/demos/vesuvio") {
        Err(AppError::ResultNotFound(m)) => {
            assert_eq!(m, "result request does not belong to this demo")
        }
        _ => panic!("wrong error"),
    }
    let queued = result_request(ResultState::Queued, ResultType::Velocity, None);
    assert!(check_demo_request(Some(queued), dir).is_ok());
    let running = result_request(ResultState::Running, ResultType::Timeseries, None);
    match demo_status(running, "etna".to_string()) {
        Some(status) => {
            assert_eq!(status.demo_name, "etna");
            assert_eq!(status.result_type, "timeseries");
            assert_eq!(status.state, "running");
        }
        None => panic!("no status"),
    }
    let done = result_request(ResultState::Completed, ResultType::Velocity, None);
    assert!(demo_status(done, "etna".to_string()).is_none());
    let done = result_request(ResultState::Completed, ResultType::Velocity, None);
    match demo_file(&done, "/sisar/demos/etna/results", true, &vec![]) {
        Ok((OutputFile::Fixed(path), mime)) => {
            assert_eq!(path, "/sisar/demos/etna/results/velocity.png");
            assert_eq!(mime, "image/png");
        }
        _ => panic!("wrong file"),
    }
    match demo_file(&done, "/sisar/demos/etna/results", false, &vec![]) {
        Err(AppError::ResultNotFound(m)) => assert_eq!(
            m,
            "output file not found for result type 'velocity' in /sisar/demos/etna/results"
        ),
        _ => panic!("wrong error"),
    }
}

// --- submission ---

#[test]
fn tiers_come_from_rows() {
    assert!(matches!(fetch_user_tier(Some("pro".to_string())), Ok(UserTier::Pro)));
    assert!(matches!(fetch_user_tier(None), Err(AppError::JobNotFound)));
    match fetch_user_tier(Some("gold".to_string())) {
        Err(AppError::Internal(m)) => assert_eq!(m, "unknown tier in DB: gold"),
        _ => panic!("wrong error"),
    }
    let now = at(100);
    assert!(matches!(resolve_effective_tier(Some(code(2, None)), now), Ok(UserTier::Pro)));
    assert!(matches!(
        resolve_effective_tier(Some(code(2, Some(at(100)))), now),
        Ok(UserTier::Pro)
    ));
    assert!(matches!(
        resolve_effective_tier(Some(code(2, Some(at(99)))), now),
        Err(AppError::InvalidPrepaidCode)
    ));
    assert!(matches!(
        resolve_effective_tier(Some(code(3, None)), now),
        Err(AppError::CodeExhausted)
    ));
    assert!(matches!(resolve_effective_tier(None, now), Err(AppError::InvalidPrepaidCode)));
    let mut unknown = code(0, None);
    unknown.granted_tier = "gold".to_string();
    match resolve_effective_tier(Some(unknown), now) {
        Err(AppError::Internal(m)) => {
            assert_eq!(m, "unknown granted_tier in prepaid_codes: gold")
        }
        _ => panic!("wrong error"),
    }
}

#[test]
fn limits_are_enforced() {
    let message = |result: Result<(), AppError>| match result {
        Err(AppError::TierLimitExceeded(m)) => m,
        _ => panic!("accepted"),
    };
    assert!(check_size(&limits(10), 10, 10).is_ok());
    assert!(check_size(&limits(0), 1000, 1000).is_ok());
    assert_eq!(
        message(check_size(&limits(10), 11, 11)),
        "AOI area 11 km² exceeds the 10 km² limit for your tier"
    );
    assert_eq!(
        message(check_size(&limits(10), 10, 11)),
        "time range 11 days exceeds the 10-day limit for your tier"
    );
    assert!(check_month(&limits(10), 9).is_ok());
    assert_eq!(
        message(check_month(&limits(10), 10)),
        "monthly job limit of 10 reached for your tier"
    );
    assert!(check_month(&limits(0), u64::MAX).is_ok());
    assert!(check_month(&limits(u64::MAX), u64::MAX).is_err());
    assert!(matches!(
        map_search_error(FlightPathError::InsufficientMaterial),
        AppError::NoImagesFound
    ));
    assert!(matches!(
        map_search_error(FlightPathError::InvalidPath),
        AppError::FlightPath(FlightPathError::InvalidPath)
    ));
}

#[test]
fn months_begin_at_midnight() {
    // 2024-02-29 12:34:56 UTC lies in the month that began on 2024-02-01.
    let now = Timestamp { secs: 1709210096, nanos: 5 };
    assert_eq!(count_jobs_this_month(&now), Some(at(1706745600)));
    assert_eq!(count_jobs_this_month(&at(1706745600)), Some(at(1706745600)));
    assert_eq!(count_jobs_this_month(&at(0)), Some(at(0)));
    assert_eq!(count_jobs_this_month(&at(i64::MAX)), None);
}

#[test]
fn parameters_fall_back_to_defaults() {
    let parameters = parameters(&job_request(), &config());
    assert_eq!(parameters.workflow, ProcessingWorkflow::Sbas);
    assert_eq!(parameters.range_looks, 20);
    assert_eq!(parameters.azimuth_looks, 7);
    assert_eq!(parameters.connections, 1);
}

#[test]
fn submissions_begin_with_valid_bounds() {
    let today = NaiveDate { days: 800 };
    let mut flat = job_request();
    flat.north = number(1.0);
    assert!(matches!(
        Submission::begin(flat, 1, today),
        Err(AppError::InvalidBoundingBox(BoundingBoxError::InvalidLatSpan { .. }))
    ));
    let mut inverted = job_request();
    inverted.end = NaiveDate { days: 600 };
    assert!(matches!(
        Submission::begin(inverted, 1, today),
        Err(AppError::InvalidTimeRange(TimeRangeError::InvertedBounds))
    ));
    assert!(matches!(
        Submission::begin(job_request(), 1, NaiveDate { days: 740 }),
        Err(AppError::InvalidTimeRange(TimeRangeError::FutureDate))
    ));
}

#[test]
fn submissions_run_to_the_answer() {
    let cfg = config();
    let mut submission = match Submission::begin(job_request(), 50, NaiveDate { days: 800 }) {
        Ok(submission) => submission,
        Err(_) => panic!("refused"),
    };
    assert!(matches!(
        submission.step(Event::TierRow(Some("free".to_string())), &cfg),
        Action::CountJobs
    ));
    assert!(matches!(submission.step(Event::JobCount(3), &cfg), Action::Search));
    let searched = Event::Searched { result: Ok(83), job_id: Uuid { bits: 0xabc } };
    let dir = "/jobs/00000000-0000-0000-0000-000000000abc";
    match submission.step(searched, &cfg) {
        Action::CreateDirectory(path) => assert_eq!(path, dir),
        _ => panic!("wrong action"),
    }
    match submission.step(Event::DirectoryCreated, &cfg) {
        Action::WriteFiles { work_dir, parameters } => {
            assert_eq!(work_dir, dir);
            assert_eq!(parameters.azimuth_looks, 7);
        }
        _ => panic!("wrong action"),
    }
    match submission.step(Event::FilesWritten, &cfg) {
        Action::InsertJob { job_id, workflow, tier, work_dir, code } => {
            assert_eq!(job_id, Uuid { bits: 0xabc });
            assert_eq!(workflow, "sbas");
            assert_eq!(tier, "free");
            assert_eq!(work_dir, dir);
            assert_eq!(code, None);
        }
        _ => panic!("wrong action"),
    }
    match submission.step(Event::Inserted { uses: 0 }, &cfg) {
        Action::Respond(response) => {
            assert_eq!(response.path, 83);
            assert_eq!(response.work_dir, dir);
        }
        _ => panic!("wrong action"),
    }
    assert!(matches!(submission.phase, Phase::Answered));
}

#[test]
fn submissions_with_a_code_use_its_tier() {
    let cfg = config();
    let begin = || {
        let mut req = job_request();
        req.prepaid_code = Some(Uuid { bits: 77 });
        match Submission::begin(req, 5000, NaiveDate { days: 800 }) {
            Ok(submission) => submission,
            Err(_) => panic!("refused"),
        }
    };
    let mut submission = begin();
    assert!(matches!(
        submission.step(Event::TierRow(Some("demo".to_string())), &cfg),
        Action::FetchCode(Uuid { bits: 77 })
    ));
    let found = Event::CodeRow { row: Some(code(0, None)), now: at(1) };
    assert!(matches!(submission.step(found, &cfg), Action::CountJobs));
    assert!(matches!(submission.step(Event::JobCount(999), &cfg), Action::Search));
    submission.step(Event::Searched { result: Ok(1), job_id: Uuid { bits: 1 } }, &cfg);
    submission.step(Event::DirectoryCreated, &cfg);
    match submission.step(Event::FilesWritten, &cfg) {
        Action::InsertJob { tier, code, .. } => {
            assert_eq!(tier, "pro");
            assert_eq!(code, Some(Uuid { bits: 77 }));
        }
        _ => panic!("wrong action"),
    }
    assert!(matches!(
        submission.step(Event::Inserted { uses: 0 }, &cfg),
        Action::Fail(AppError::CodeExhausted)
    ));
    let mut exhausted = begin();
    exhausted.step(Event::TierRow(Some("demo".to_string())), &cfg);
    assert!(matches!(
        exhausted.step(Event::CodeRow { row: Some(code(3, None)), now: at(1) }, &cfg),
        Action::Fail(AppError::CodeExhausted)
    ));
}

#[test]
fn submissions_past_the_limits_are_refused() {
    let cfg = config();
    let begin = || match Submission::begin(job_request(), 50, NaiveDate { days: 800 }) {
        Ok(submission) => submission,
        Err(_) => panic!("refused"),
    };
    let mut large = begin();
    assert!(matches!(
        large.step(Event::TierRow(Some("demo".to_string())), &cfg),
        Action::Fail(AppError::TierLimitExceeded(_))
    ));
    let mut many = begin();
    many.step(Event::TierRow(Some("free".to_string())), &cfg);
    assert!(matches!(
        many.step(Event::JobCount(100), &cfg),
        Action::Fail(AppError::TierLimitExceeded(_))
    ));
    let mut empty = begin();
    empty.step(Event::TierRow(Some("free".to_string())), &cfg);
    empty.step(Event::JobCount(0), &cfg);
    let nothing = Event::Searched {
        result: Err(FlightPathError::InsufficientMaterial),
        job_id: Uuid { bits: 1 },
    };
    assert!(matches!(empty.step(nothing, &cfg), Action::Fail(AppError::NoImagesFound)));
    let mut broken = begin();
    assert!(matches!(
        broken.step(Event::Failed(AppError::Io("x".to_string())), &cfg),
        Action::Fail(AppError::Io(_))
    ));
}
