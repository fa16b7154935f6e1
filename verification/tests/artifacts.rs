use sisar::artifacts::{
    check_artifact, require_file, run_command, run_velocity, velocity_inputs, velocity_outcome,
    Action, Artifact, Event, Phase, Series,
};
use sisar::shared::result::find_output;

fn texts(all: &[&str]) -> Vec<String> {
    all.iter().map(|s| s.to_string()).collect()
}

fn series() -> Series {
    Series::start("/job", "1.5", "-2", "/job/results/out.png").0
}

fn failure(action: Action) -> (Option<String>, String) {
    match action {
        Action::Fail(failure) => (failure.context, failure.message),
        _ => panic!("no failure"),
    }
}

#[test]
fn some_artifacts_are_made() {
    assert_eq!(check_artifact(Artifact::Velocity), Ok(()));
    assert_eq!(check_artifact(Artifact::Timeseries), Ok(()));
    for artifact in [Artifact::AiSummary, Artifact::Dem, Artifact::Model3d] {
        assert_eq!(
            check_artifact(artifact),
            Err("this result type is not yet implemented".to_string())
        );
    }
}

#[test]
fn programs_end_with_a_status() {
    assert_eq!(run_command("view.py", Some(0)), Ok(()));
    assert_eq!(
        run_command("view.py", Some(3)),
        Err("'view.py' exited with status 3".to_string())
    );
    assert_eq!(run_command("view.py", None), Err("'view.py' exited with status -1".to_string()));
    assert_eq!(require_file("/a", true), Ok(()));
    assert_eq!(require_file("/a", false), Err("required file not found: /a".to_string()));
}

#[test]
fn velocity_maps_need_three_files() {
    assert_eq!(
        velocity_inputs("/job"),
        texts(&[
            "/job/series/geo/geo_velocity.h5",
            "/job/series/geo/geo_maskTempCoh.h5",
            "/job/dem/full_res.dem.wgs84",
        ])
    );
    match run_velocity("/job", "/job/results/velocity.png", &vec![true, true, true]) {
        Ok(command) => {
            assert_eq!(command.program, "view.py");
            assert_eq!(
                command.args,
                texts(&[
                    "/job/series/geo/geo_velocity.h5",
                    "velocity",
                    "-m",
                    "/job/series/geo/geo_maskTempCoh.h5",
                    "-d",
                    "/job/dem/full_res.dem.wgs84",
                    "-v",
                    "-10",
                    "10",
                    "--notitle",
                    "--nodisplay",
                    "-o",
                    "/job/results/velocity.png",
                ])
            );
        }
        Err(_) => panic!("refused"),
    }
    match run_velocity("/job", "x", &vec![true, false, false]) {
        Err(message) => assert_eq!(
            message,
            "required file not found: /job/series/geo/geo_maskTempCoh.h5"
        ),
        Ok(_) => panic!("accepted"),
    }
    assert!(velocity_outcome(Some(0)).is_ok());
    match velocity_outcome(Some(1)) {
        Err(failure) => {
            assert_eq!(failure.context.as_deref(), Some("view.py failed"));
            assert_eq!(failure.message, "'view.py' exited with status 1");
        }
        Ok(()) => panic!("accepted"),
    }
}

#[test]
fn series_are_plotted_converted_and_found() {
    let (mut series, action) = Series::start("/job", "1.5", "-2", "/job/results/out.png");
    match action {
        Action::Look(path) => {
            assert_eq!(path, "/job/series/geo/geo_timeseries_ERA5_ramp_demErr.h5")
        }
        _ => panic!("wrong action"),
    }
    match series.step(Event::Present(true)) {
        Action::Run(command) => {
            assert_eq!(command.program, "tsview.py");
            assert_eq!(
                command.args,
                texts(&[
                    "/job/series/geo/geo_timeseries_ERA5_ramp_demErr.h5",
                    "--zf",
                    "-u",
                    "cm",
                    "--lalo",
                    "1.5",
                    "-2",
                    "--nodisplay",
                    "-o",
                    "/job/results/series_1.5_-2.pdf",
                ])
            );
        }
        _ => panic!("wrong action"),
    }
    match series.step(Event::Exited(Some(0))) {
        Action::Look(path) => assert_eq!(path, "/job/results/series_1.5_-2_ts.pdf"),
        _ => panic!("wrong action"),
    }
    match series.step(Event::Present(true)) {
        Action::Run(command) => {
            assert_eq!(command.program, "pdftocairo");
            assert_eq!(
                command.args,
                texts(&[
                    "-png",
                    "-r",
                    "150",
                    "-singlefile",
                    "/job/results/series_1.5_-2_ts.pdf",
                    "/job/results/out",
                ])
            );
        }
        _ => panic!("wrong action"),
    }
    match series.step(Event::Exited(Some(0))) {
        Action::Remove(path) => assert_eq!(path, "/job/results/series_1.5_-2_ts.pdf"),
        _ => panic!("wrong action"),
    }
    match series.step(Event::Removed(None)) {
        Action::Look(path) => assert_eq!(path, "/job/results/out.png"),
        _ => panic!("wrong action"),
    }
    assert!(matches!(series.step(Event::Present(true)), Action::Finish));
    assert_eq!(series.phase, Phase::Done);
}

#[test]
fn series_are_found_by_the_name_of_their_request() {
    let output = "/job/results/timeseries_1.5_-2_";
    let (mut series, _) = Series::start("/job", "1.5", "-2", output);
    series.step(Event::Present(true));
    series.step(Event::Exited(Some(0)));
    match series.step(Event::Present(true)) {
        Action::Run(command) => assert_eq!(command.args[5], output),
        _ => panic!("wrong action"),
    }
    series.step(Event::Exited(Some(0)));
    match series.step(Event::Removed(None)) {
        Action::Look(path) => assert_eq!(path, "/job/results/timeseries_1.5_-2_.png"),
        _ => panic!("wrong action"),
    }
    assert_eq!(
        find_output(&texts(&["velocity.png", "timeseries_1.5_-2_.png"]), "timeseries_1.5_-2_"),
        Some(1)
    );
}

#[test]
fn series_fail_at_every_step() {
    let mut missing = series();
    assert_eq!(
        failure(missing.step(Event::Present(false))),
        (
            None,
            "required file not found: /job/series/geo/geo_timeseries_ERA5_ramp_demErr.h5"
                .to_string()
        )
    );
    let mut plot = series();
    plot.step(Event::Present(true));
    assert_eq!(
        failure(plot.step(Event::Exited(Some(2)))),
        (
            Some("tsview.py failed".to_string()),
            "'tsview.py' exited with status 2".to_string()
        )
    );
    let mut pdf = series();
    pdf.step(Event::Present(true));
    pdf.step(Event::Exited(Some(0)));
    assert_eq!(
        failure(pdf.step(Event::Present(false))).1,
        "required file not found: /job/results/series_1.5_-2_ts.pdf"
    );
    let mut convert = series();
    convert.step(Event::Present(true));
    convert.step(Event::Exited(Some(0)));
    convert.step(Event::Present(true));
    assert_eq!(
        failure(convert.step(Event::Exited(None))),
        (
            Some("pdftocairo failed".to_string()),
            "'pdftocairo' exited with status -1".to_string()
        )
    );
    let mut clean = series();
    clean.step(Event::Present(true));
    clean.step(Event::Exited(Some(0)));
    clean.step(Event::Present(true));
    clean.step(Event::Exited(Some(0)));
    assert_eq!(
        failure(clean.step(Event::Removed(Some("denied".to_string())))),
        (
            Some(
                "removing intermediate PDF /job/results/series_1.5_-2_ts.pdf".to_string()
            ),
            "denied".to_string()
        )
    );
    let mut last = series();
    last.step(Event::Present(true));
    last.step(Event::Exited(Some(0)));
    last.step(Event::Present(true));
    last.step(Event::Exited(Some(0)));
    last.step(Event::Removed(None));
    assert_eq!(
        failure(last.step(Event::Present(false))).1,
        "required file not found: /job/results/out.png"
    );
}
