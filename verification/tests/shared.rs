use sisar::float64::{Float64, Number};
use sisar::ids::Uuid;
use sisar::shared::job::{parse_job_state, Job, JobError, JobRow, JobRowError, JobState};
use sisar::shared::queries::{
    advance_job_state, advanceable_states, complete_job, complete_result_request, decode_result_rows,
    decode_rows, enqueue_result_request, fail_job, fail_result_request, get_job, get_result_request,
    start_result_request, QueryError, ResultQueryError,
};
use sisar::shared::result::{
    OutputFile, ResultRequest, ResultRequestRow, ResultRequestRowError, ResultState, ResultType,
};
use sisar::shared::stage::{IsceStage, MiaplpyStage, MintpyStage, ResourceTier};
use sisar::shared::tier::UserTier;
use sisar::shared::types::{
    BoundingBox, BoundingBoxError, CoordinatesError, FlightPathError, Latitude, Longitude,
    ProcessingWorkflow, Sensor, TimeRange, TimeRangeError,
};
use sisar::time::{NaiveDate, Timestamp};

fn number(value: f64) -> Number {
    Number { value: Float64 { bits: value.to_bits() }, text: format!("{}", value) }
}

fn row(state: &str, stage: Option<&str>, kind: Option<&str>, message: Option<&str>) -> JobRow {
    JobRow {
        id: Uuid { bits: 1 },
        user_id: Uuid { bits: 2 },
        workflow: "sbas".to_string(),
        job_state: state.to_string(),
        job_stage: stage.map(|s| s.to_string()),
        job_error_kind: kind.map(|s| s.to_string()),
        job_error_message: message.map(|s| s.to_string()),
        effective_tier: "free".to_string(),
        work_dir: "/jobs/1".to_string(),
        created_at: Timestamp { secs: 5, nanos: 0 },
        updated_at: Timestamp { secs: 6, nanos: 0 },
    }
}

fn result_row(kind: &str, state: &str, params: Option<&str>) -> ResultRequestRow {
    ResultRequestRow {
        id: Uuid { bits: 9 },
        job_id: None,
        result_type: kind.to_string(),
        params: params.map(|s| s.to_string()),
        state: state.to_string(),
        error: None,
        work_dir: Some("/sisar/demos/etna".to_string()),
        created_at: Timestamp { secs: 5, nanos: 0 },
        updated_at: Timestamp { secs: 6, nanos: 0 },
    }
}

fn request(kind: &str, params: Option<&str>) -> ResultRequest {
    match ResultRequest::try_from(result_row(kind, "completed", params)) {
        Ok(request) => request,
        Err(_) => panic!("row refused"),
    }
}

#[test]
fn tiers_have_names_and_priorities() {
    assert_eq!(UserTier::Demo.as_str(), "demo");
    assert_eq!(UserTier::Free.as_str(), "free");
    assert_eq!(UserTier::Pro.as_str(), "pro");
    assert_eq!(UserTier::from_str("pro"), Some(UserTier::Pro));
    assert_eq!(UserTier::from_str("free"), Some(UserTier::Free));
    assert_eq!(UserTier::from_str("demo"), Some(UserTier::Demo));
    assert_eq!(UserTier::from_str("Pro"), None);
    assert_eq!(UserTier::from_str(""), None);
    assert_eq!(UserTier::Pro.dispatch_priority(), 2);
    assert_eq!(UserTier::Free.dispatch_priority(), 1);
    assert_eq!(UserTier::Demo.dispatch_priority(), 0);
}

#[test]
fn isce_stages_run_from_first_to_last() {
    let mut stage = IsceStage::first();
    let mut names: Vec<&str> = vec![stage.as_str()];
    while let Some(next) = stage.next() {
        stage = next;
        names.push(stage.as_str());
    }
    assert_eq!(
        names,
        vec![
            "unpack_topo_reference",
            "unpack_secondary_slc",
            "average_baseline",
            "extract_burst_overlaps",
            "overlap_geo_to_radar",
            "overlap_resample",
            "pairs_misreg",
            "timeseries_misreg",
            "full_burst_geo_to_radar",
            "full_burst_resample",
            "extract_stack_valid_region",
            "merge_reference_secondary_slc",
            "generate_burst_igram",
            "merge_burst_igram",
            "filter_coherence",
            "phase_unwrap",
        ]
    );
    for name in names {
        match IsceStage::from_str(name) {
            Some(stage) => assert_eq!(stage.as_str(), name),
            None => panic!("{} is not read back", name),
        }
    }
    assert!(IsceStage::from_str("geocode").is_none());
}

#[test]
fn mintpy_stages_run_from_first_to_last() {
    let mut stage = MintpyStage::first();
    let mut count = 1;
    assert_eq!(stage.as_str(), "load_data");
    while let Some(next) = stage.next() {
        match MintpyStage::from_str(next.as_str()) {
            Some(same) => assert_eq!(same, next),
            None => panic!("{} is not read back", next.as_str()),
        }
        stage = next;
        count += 1;
    }
    assert_eq!(count, 18);
    assert_eq!(stage, MintpyStage::HdfEos5);
    assert!(MintpyStage::from_str("unwrap").is_none());
}

#[test]
fn stages_name_their_resources() {
    assert_eq!(IsceStage::UnpackTopoReference.resource_tier(), ResourceTier::Light);
    assert_eq!(IsceStage::PhaseUnwrap.resource_tier(), ResourceTier::Heavy);
    assert!(MiaplpyStage::from_str("anything").is_none());
}

#[test]
fn job_errors_are_stored_and_read_back() {
    let errors = vec![
        JobError::ContainerFailed { exit_code: -7 },
        JobError::ContainerStartFailed { reason: "no image".to_string() },
        JobError::Timeout,
        JobError::Internal { message: "oops".to_string() },
    ];
    let kinds = vec!["container_failed", "container_start_failed", "timeout", "internal"];
    let details = vec![Some("-7"), Some("no image"), None, Some("oops")];
    let messages = vec![
        "container exited with non-zero status: -7",
        "container failed to start: no image",
        "container timed out",
        "internal scheduler error: oops",
    ];
    for i in 0..errors.len() {
        assert_eq!(errors[i].kind(), kinds[i]);
        assert_eq!(errors[i].to_db_string().as_deref(), details[i]);
        assert_eq!(errors[i].message(), messages[i]);
        match JobError::from_db(kinds[i], details[i].unwrap_or("")) {
            Some(back) => assert_eq!(back.message(), messages[i]),
            None => panic!("{} is not read back", kinds[i]),
        }
    }
    assert!(JobError::from_db("melted", "x").is_none());
    match JobError::from_db("container_failed", "many") {
        Some(JobError::ContainerFailed { exit_code }) => assert_eq!(exit_code, -1),
        _ => panic!("wrong error"),
    }
}

#[test]
fn job_states_are_parsed() {
    assert!(matches!(parse_job_state("queued", None, None, None), Ok(JobState::Queued)));
    assert!(matches!(parse_job_state("initializing", None, None, None), Ok(JobState::Initializing)));
    assert!(matches!(parse_job_state("downloading", None, None, None), Ok(JobState::Downloading)));
    assert!(matches!(
        parse_job_state("results_generating", None, None, None),
        Ok(JobState::ResultsGenerating)
    ));
    assert!(matches!(parse_job_state("completed", None, None, None), Ok(JobState::Completed)));
    assert!(matches!(parse_job_state("cancelled", None, None, None), Ok(JobState::Cancelled)));
    assert!(matches!(
        parse_job_state("isce_processing", Some("phase_unwrap"), None, None),
        Ok(JobState::IsceProcessing { stage: IsceStage::PhaseUnwrap })
    ));
    assert!(matches!(
        parse_job_state("mintpy_processing", Some("geocode"), None, None),
        Ok(JobState::MintpyProcessing { stage: MintpyStage::Geocode })
    ));
    match parse_job_state("failed", None, Some("timeout"), None) {
        Ok(JobState::Failed { error }) => assert_eq!(error.kind(), "timeout"),
        _ => panic!("wrong state"),
    }
    match parse_job_state("failed", None, Some("melted"), Some("x")) {
        Ok(JobState::Failed { error: JobError::Internal { message } }) => {
            assert_eq!(message, "unrecognised error kind in DB: melted")
        }
        _ => panic!("wrong state"),
    }
}

#[test]
fn bad_job_states_are_refused() {
    match parse_job_state("isce_processing", None, None, None) {
        Err(JobRowError::MissingStage { state }) => assert_eq!(state, "isce_processing"),
        _ => panic!("wrong error"),
    }
    match parse_job_state("mintpy_processing", None, None, None) {
        Err(JobRowError::MissingStage { state }) => assert_eq!(state, "mintpy_processing"),
        _ => panic!("wrong error"),
    }
    match parse_job_state("mintpy_processing", Some("unwrap"), None, None) {
        Err(JobRowError::UnknownStage { state, stage }) => {
            assert_eq!(state, "mintpy_processing");
            assert_eq!(stage, "unwrap");
        }
        _ => panic!("wrong error"),
    }
    match parse_job_state("miaplpy_processing", Some("any"), None, None) {
        Err(JobRowError::UnknownStage { stage, .. }) => assert_eq!(stage, "any"),
        _ => panic!("wrong error"),
    }
    assert!(matches!(
        parse_job_state("failed", None, None, Some("x")),
        Err(JobRowError::MissingErrorKind)
    ));
    match parse_job_state("Queued", None, None, None) {
        Err(JobRowError::UnknownState(state)) => assert_eq!(state, "Queued"),
        _ => panic!("wrong error"),
    }
}

#[test]
fn rows_become_jobs() {
    match Job::try_from(row("isce_processing", Some("phase_unwrap"), None, None)) {
        Ok(job) => {
            assert_eq!(job.id, Uuid { bits: 1 });
            assert_eq!(job.workflow, "sbas");
            assert_eq!(job.state.as_str(), "isce_processing");
            assert_eq!(job.state.as_stage_str().as_deref(), Some("phase_unwrap"));
            assert_eq!(job.effective_tier, UserTier::Free);
        }
        Err(_) => panic!("row refused"),
    }
    let mut unknown = row("queued", None, None, None);
    unknown.effective_tier = "gold".to_string();
    match Job::try_from(unknown) {
        Err(JobRowError::UnknownTier(tier)) => assert_eq!(tier, "gold"),
        _ => panic!("wrong error"),
    }
    match Job::try_from(row("lost", None, None, None)) {
        Err(JobRowError::UnknownState(state)) => assert_eq!(state, "lost"),
        _ => panic!("wrong error"),
    }
}

#[test]
fn states_say_whether_they_go_on() {
    let failed = JobState::Failed { error: JobError::Timeout };
    let going = vec![
        JobState::Queued,
        JobState::Downloading,
        JobState::IsceProcessing { stage: IsceStage::first() },
        JobState::MintpyProcessing { stage: MintpyStage::first() },
        JobState::ResultsGenerating,
    ];
    for state in &going {
        assert!(state.is_advanceable());
        assert!(!state.is_terminal());
        assert!(advanceable_states().contains(&state.as_str().to_string()));
    }
    for state in &vec![JobState::Completed, failed, JobState::Cancelled] {
        assert!(state.is_terminal());
        assert!(!state.is_advanceable());
        assert!(!advanceable_states().contains(&state.as_str().to_string()));
    }
    assert!(!JobState::Initializing.is_advanceable());
    assert!(!JobState::Initializing.is_terminal());
    assert_eq!(advanceable_states().len(), 6);
}

#[test]
fn stored_states_read_back() {
    let next = JobState::MintpyProcessing { stage: MintpyStage::CorrectLod };
    let columns = advance_job_state(&next);
    assert_eq!(columns.job_state, "mintpy_processing");
    assert_eq!(columns.job_error_kind, None);
    let back = parse_job_state(
        &columns.job_state,
        columns.job_stage.as_deref(),
        columns.job_error_kind.as_deref(),
        columns.job_error_message.as_deref(),
    );
    assert!(matches!(
        back,
        Ok(JobState::MintpyProcessing { stage: MintpyStage::CorrectLod })
    ));

    let columns = fail_job(&JobError::ContainerFailed { exit_code: 137 });
    assert_eq!(columns.job_state, "failed");
    assert_eq!(columns.job_stage, None);
    assert_eq!(columns.job_error_kind.as_deref(), Some("container_failed"));
    assert_eq!(columns.job_error_message.as_deref(), Some("137"));

    let columns = complete_job();
    assert_eq!(columns.job_state, "completed");
    assert_eq!(columns.job_stage, None);
    assert_eq!(columns.job_error_kind, None);
    assert_eq!(columns.job_error_message, None);
}

#[test]
fn lists_of_rows_are_decoded_together() {
    match decode_rows(vec![row("queued", None, None, None), row("completed", None, None, None)]) {
        Ok(jobs) => {
            assert_eq!(jobs.len(), 2);
            assert_eq!(jobs[1].state.as_str(), "completed");
        }
        Err(_) => panic!("rows refused"),
    }
    match decode_rows(vec![row("queued", None, None, None), row("lost", None, None, None)]) {
        Err(QueryError::RowDecode { job_id, source: JobRowError::UnknownState(state) }) => {
            assert_eq!(job_id, Uuid { bits: 1 });
            assert_eq!(state, "lost");
        }
        _ => panic!("wrong error"),
    }
    assert!(matches!(get_job(None), Ok(None)));
    assert!(matches!(get_job(Some(row("queued", None, None, None))), Ok(Some(_))));
    assert!(get_job(Some(row("lost", None, None, None))).is_err());
}

#[test]
fn result_types_and_states_have_names() {
    let types = vec![
        (ResultType::Velocity, "velocity", Some("png"), Some("image/png")),
        (ResultType::Timeseries, "timeseries", Some("png"), Some("image/png")),
        (ResultType::AiSummary, "ai_summary", None, None),
        (ResultType::Dem, "dem", None, None),
        (ResultType::Model3d, "3d_model", None, None),
    ];
    for (kind, name, extension, mime) in types {
        assert_eq!(kind.as_str(), name);
        assert_eq!(ResultType::from_str(name), Some(kind));
        assert_eq!(kind.output_extension(), extension);
        assert_eq!(kind.mime(), mime);
    }
    assert_eq!(ResultType::from_str("model"), None);
    let states = vec![
        (ResultState::Queued, "queued", false),
        (ResultState::Running, "running", false),
        (ResultState::Completed, "completed", true),
        (ResultState::Failed, "failed", true),
    ];
    for (state, name, terminal) in states {
        assert_eq!(state.as_str(), name);
        assert_eq!(ResultState::from_str(name), Some(state));
        assert_eq!(state.is_terminal(), terminal);
    }
    assert_eq!(ResultState::from_str("done"), None);
}

#[test]
fn outputs_are_named_after_their_point() {
    assert_eq!(request("velocity", None).output_filename().as_deref(), Some("velocity.png"));
    assert_eq!(
        request("timeseries", Some("{\"lat\": -32.89, \"lon\": -68.84}")).output_filename().as_deref(),
        Some("timeseries_-32.89_-68.84_")
    );
    assert_eq!(
        request("timeseries", Some("{\"lat\": 1, \"lon\": 2.5}")).output_filename().as_deref(),
        Some("timeseries_1_2.5_")
    );
    assert_eq!(request("timeseries", Some("{\"lat\": 1}")).output_filename(), None);
    assert_eq!(request("timeseries", Some("{\"lat\": \"1\", \"lon\": 2}")).output_filename(), None);
    assert_eq!(request("timeseries", Some("[1, 2]")).output_filename(), None);
    assert_eq!(request("timeseries", None).output_filename(), None);
    assert_eq!(request("dem", None).output_filename(), None);
}

#[test]
fn outputs_are_found_in_the_results_directory() {
    let names = vec![
        "timeseries_1_2.5_ts.pdf".to_string(),
        "velocity.png".to_string(),
        "timeseries_1_2.5_20240101.png".to_string(),
        "timeseries_1_2.5_20240202.png".to_string(),
    ];
    let series = request("timeseries", Some("{\"lat\": 1, \"lon\": 2.5}"));
    assert!(matches!(
        series.resolve_output_file("/job/results", false, &names),
        Some(OutputFile::Listed(2))
    ));
    let other = request("timeseries", Some("{\"lat\": 1, \"lon\": 2.4}"));
    assert!(other.resolve_output_file("/job/results", true, &names).is_none());
    match request("velocity", None).resolve_output_file("/job/results", true, &names) {
        Some(OutputFile::Fixed(path)) => assert_eq!(path, "/job/results/velocity.png"),
        _ => panic!("wrong file"),
    }
    assert!(request("velocity", None).resolve_output_file("/job/results", false, &names).is_none());
    assert!(request("3d_model", None).resolve_output_file("/job/results", true, &names).is_none());
}

#[test]
fn result_rows_are_decoded() {
    match ResultRequest::try_from(result_row("velocity", "running", None)) {
        Ok(request) => {
            assert_eq!(request.result_type, ResultType::Velocity);
            assert_eq!(request.state, ResultState::Running);
            assert_eq!(request.work_dir.as_deref(), Some("/sisar/demos/etna"));
        }
        Err(_) => panic!("row refused"),
    }
    match ResultRequest::try_from(result_row("hologram", "running", None)) {
        Err(ResultRequestRowError::UnknownType(name)) => assert_eq!(name, "hologram"),
        _ => panic!("wrong error"),
    }
    match ResultRequest::try_from(result_row("velocity", "late", None)) {
        Err(ResultRequestRowError::UnknownState(name)) => assert_eq!(name, "late"),
        _ => panic!("wrong error"),
    }
    match decode_result_rows(vec![result_row("velocity", "late", None)]) {
        Err(ResultQueryError::RowDecode { id, .. }) => assert_eq!(id, Uuid { bits: 9 }),
        _ => panic!("wrong error"),
    }
    assert!(matches!(decode_result_rows(vec![]), Ok(all) if all.is_empty()));
    assert!(matches!(get_result_request(None), Ok(None)));
    assert!(get_result_request(Some(result_row("dem", "late", None))).is_err());
}

#[test]
fn result_requests_move_on() {
    let new = enqueue_result_request(
        Some(Uuid { bits: 3 }),
        ResultType::Timeseries,
        Some("{}".to_string()),
        None,
    );
    assert_eq!(new.result_type, "timeseries");
    assert_eq!(new.state, "queued");
    assert_eq!(new.job_id, Some(Uuid { bits: 3 }));
    assert_eq!(new.params.as_deref(), Some("{}"));
    assert_eq!(new.work_dir, None);

    let start = start_result_request();
    assert_eq!(start.state, "running");
    assert_eq!(start.error, None);
    let done = complete_result_request();
    assert_eq!(done.state, "completed");
    assert_eq!(done.error, Some(None));
    let failed = fail_result_request("no input");
    assert_eq!(failed.state, "failed");
    assert_eq!(failed.error, Some(Some("no input".to_string())));
}

#[test]
fn coordinates_are_bounded() {
    assert!(Latitude::try_from(number(90.0)).is_ok());
    assert!(Latitude::try_from(number(-90.0)).is_ok());
    assert!(Longitude::try_from(number(180.0)).is_ok());
    assert!(Longitude::try_from(number(-180.0)).is_ok());
    match Latitude::try_from(number(90.5)) {
        Err(error) => assert_eq!(error.message(), "latitude must be in [-90, 90]; got 90.5"),
        Ok(_) => panic!("accepted"),
    }
    match Longitude::try_from(number(-180.25)) {
        Err(error) => assert_eq!(error.message(), "longitude must be in [-180, 180]; got -180.25"),
        Ok(_) => panic!("accepted"),
    }
    assert!(Latitude::try_from(number(f64::NAN)).is_err());
    assert!(Longitude::try_from(number(f64::INFINITY)).is_err());
}

#[test]
fn boxes_span_both_directions() {
    match BoundingBox::from_bounds(number(1.5), number(-1.5), number(10.0), number(9.0)) {
        Ok(bbox) => {
            let corners = bbox.corners();
            let expected = [(9.0, 1.5), (9.0, -1.5), (10.0, -1.5), (10.0, 1.5)];
            for i in 0..4 {
                assert_eq!(f64::from_bits(corners[i].0.bits), expected[i].0);
                assert_eq!(f64::from_bits(corners[i].1.bits), expected[i].1);
            }
        }
        Err(_) => panic!("refused"),
    }
    match BoundingBox::from_bounds(number(1.0), number(1.0), number(10.0), number(9.0)) {
        Err(error) => {
            assert!(matches!(error, BoundingBoxError::InvalidLatSpan { .. }));
            assert_eq!(error.message(), "north (1) must be greater than south (1)");
        }
        Ok(_) => panic!("accepted"),
    }
    match BoundingBox::from_bounds(number(2.0), number(1.0), number(-10.0), number(9.0)) {
        Err(error) => {
            assert!(matches!(error, BoundingBoxError::InvalidLonSpan { .. }));
            assert_eq!(error.message(), "east (-10) must be greater than west (9)");
        }
        Ok(_) => panic!("accepted"),
    }
    match BoundingBox::from_bounds(number(91.0), number(1.0), number(10.0), number(9.0)) {
        Err(error) => {
            assert!(matches!(
                error,
                BoundingBoxError::InvalidCoordinates(CoordinatesError::OutOfBoundsLat(_))
            ));
            assert_eq!(
                error.message(),
                "invalid coordinates: latitude must be in [-90, 90]; got 91"
            );
        }
        Ok(_) => panic!("accepted"),
    }
    assert!(BoundingBox::from_bounds(number(0.0), number(-0.0), number(1.0), number(0.0)).is_err());
}

#[test]
fn time_ranges_lie_in_the_past() {
    let today = NaiveDate { days: 1000 };
    match TimeRange::from_bounds(NaiveDate { days: 900 }, NaiveDate { days: 1000 }, today) {
        Ok(range) => assert_eq!(range.duration_days(), 100),
        Err(_) => panic!("refused"),
    }
    match TimeRange::from_bounds(NaiveDate { days: 900 }, NaiveDate { days: 1001 }, today) {
        Err(error) => {
            assert_eq!(error, TimeRangeError::FutureDate);
            assert_eq!(error.message(), "start and end dates must be today or in the past");
        }
        Ok(_) => panic!("accepted"),
    }
    match TimeRange::from_bounds(NaiveDate { days: 901 }, NaiveDate { days: 900 }, today) {
        Err(error) => {
            assert_eq!(error, TimeRangeError::InvertedBounds);
            assert_eq!(error.message(), "start date must be before or equal to end date");
        }
        Ok(_) => panic!("accepted"),
    }
}

#[test]
fn sensors_and_workflows_have_names() {
    assert_eq!(Sensor::default(), Sensor::S1Burst);
    assert_eq!(Sensor::S1Burst.asf_dataset(), "SLC-BURST");
    assert_eq!(Sensor::Nisar.asf_dataset(), "NISAR");
    assert_eq!(ProcessingWorkflow::default(), ProcessingWorkflow::Sbas);
    assert_eq!(ProcessingWorkflow::Sbas.as_db_str(), "sbas");
    assert_eq!(ProcessingWorkflow::PsInsar.as_db_str(), "ps_insar");
    assert_eq!(ProcessingWorkflow::Timeseries.as_db_str(), "timeseries");
    assert_eq!(
        FlightPathError::InsufficientMaterial.message(),
        "no images found for the given spatial and temporal bounds"
    );
    assert_eq!(
        FlightPathError::InvalidPath.message(),
        "the specified path has insufficient coverage for the given bounds; leave path unset for \
         automatic selection"
    );
}
