use sisar::mintpy::rsc::{
    build_data_rsc, compute_looks, describe_stack, glob_local, is_up_to_date, iw_files,
    parse_iw_xml, read_iw_props, shorten_platform, sort_by_swath, utc_to_seconds, write_rsc,
    IwMeta, Looks, MetaError, RscNumbers, StackError, UtcError,
};
use sisar::mintpy::runner::{
    chosen_stage, dispatch, job_dir, print_help, results_dir, run_load_data, run_stage,
    stage_outcome, valid_stages, Task,
};
use sisar::mintpy::xml::{
    get_all_props, get_prop, parse_isce_xml_properties, read_geom_xml_size, read_properties, read_size,
    Property, Size,
};
use sisar::time::Timestamp;

fn texts(all: &[&str]) -> Vec<String> {
    all.iter().map(|s| s.to_string()).collect()
}

fn property(name: &str, value: &str) -> String {
    format!("    <property name=\"{}\">\n        <value>{}</value>\n    </property>\n", name, value)
}

fn swath(number: u32) -> String {
    let fields = vec![
        ("startingRange", "800000.5"),
        ("radarWavelength", "0.05546576"),
        ("rangePixelSize", "2.329562"),
        ("azimuthTimeInterval", "0.002055556"),
        ("pulseRepetitionFrequency", "1717.129"),
        ("swathNumber", "0"),
        ("orbitNumber", "9554"),
        ("trackNumber", "157"),
        ("passDirection", "descending"),
        ("polarization", "vv"),
        ("spacecraftName", "Sentinel-1A"),
        ("burstStartUTC", "2016-01-17 23:26:16.725734"),
        ("burstStopUTC", "2016-01-17 23:26:19.855"),
        ("burstStartUTC", "2016-01-17 23:26:19.4"),
        ("burstStopUTC", "2016-01-17 23:26:22.5"),
    ];
    let mut out = String::new();
    for (name, value) in fields {
        if name == "swathNumber" {
            out.push_str(&property(name, &format!("{}", number)));
        } else {
            out.push_str(&property(name, value));
        }
    }
    out
}

fn meta(number: u32) -> IwMeta {
    match parse_iw_xml(&swath(number)) {
        Ok(meta) => meta,
        Err(_) => panic!("swath refused"),
    }
}

#[test]
fn properties_are_read_in_order() {
    let xml = "<component>\n  <property name=\"WIDTH\">\n    <value> 12 </value>\n  </property>\n\
               <property name=\"empty\">\n</property>\n<value>lost</value>\n\
               <property name=\"a\">\n<!-- note -->\n\n<value>1</value>\n<value>2</value>\n\
               <property name=\"a\">\n<value></value>\n";
    let props = parse_isce_xml_properties(xml);
    let found: Vec<(&str, &str)> =
        props.iter().map(|p| (p.name.as_str(), p.value.as_str())).collect();
    assert_eq!(found, vec![("width", "12"), ("a", "1"), ("a", "")]);
    assert_eq!(get_prop(&props, "a").as_deref(), Some("1"));
    assert_eq!(get_prop(&props, "b"), None);
    assert_eq!(get_all_props(&props, "a"), texts(&["1", ""]));
    assert_eq!(get_all_props(&props, "b"), texts(&[]));
}

#[test]
fn sizes_need_both_numbers() {
    let both = format!("{}{}", property("width", "100"), property("length", "200"));
    assert_eq!(read_geom_xml_size(&both), Some(Size { width: 100, length: 200 }));
    assert_eq!(read_geom_xml_size(&property("width", "100")), None);
    let bad = format!("{}{}", property("width", "100"), property("length", "-2"));
    assert_eq!(read_geom_xml_size(&bad), None);
}

#[test]
fn swath_files_are_read() {
    let meta = meta(2);
    assert_eq!(meta.swath_number, 2);
    assert_eq!(meta.orbit_number, 9554);
    assert_eq!(meta.track_number, 157);
    assert_eq!(meta.pass_direction, "DESCENDING");
    assert_eq!(meta.polarization, "VV");
    assert_eq!(meta.spacecraft_name, "Sentinel-1A");
    assert_eq!(meta.start_utc, "2016-01-17 23:26:16.725734");
    assert_eq!(meta.stop_utc, "2016-01-17 23:26:22.5");
    assert_eq!(meta.starting_range, "800000.5");
}

#[test]
fn incomplete_swath_files_are_refused() {
    let without = |name: &str| {
        swath(1).replace(&format!("name=\"{}\"", name), "name=\"other\"")
    };
    match parse_iw_xml(&without("trackNumber")) {
        Err(error) => assert_eq!(
            error.message("/job/reference/IW1.xml"),
            "Missing property 'tracknumber' in /job/reference/IW1.xml"
        ),
        Ok(_) => panic!("accepted"),
    }
    assert!(matches!(parse_iw_xml(&without("startingRange")), Err(MetaError::Missing(_))));
    match parse_iw_xml(&without("burstStartUTC")) {
        Err(error) => {
            assert!(matches!(error, MetaError::NoStart));
            assert_eq!(error.message("x"), "No burststartutc in x");
        }
        Ok(_) => panic!("accepted"),
    }
    match parse_iw_xml(&without("burstStopUTC")) {
        Err(error) => {
            assert!(matches!(error, MetaError::NoStop));
            assert_eq!(error.message("x"), "No burststoputc in x");
        }
        Ok(_) => panic!("accepted"),
    }
    match parse_iw_xml(&swath(1).replace("800000.5", "far")) {
        Err(error) => assert_eq!(error.message("x"), "invalid float literal"),
        Ok(_) => panic!("accepted"),
    }
    match parse_iw_xml(&swath(1).replace("9554", "many")) {
        Err(error) => assert_eq!(error.message("x"), "invalid digit found in string"),
        Ok(_) => panic!("accepted"),
    }
    match parse_iw_xml(&swath(1).replace("9554", "99999999999")) {
        Err(error) => assert_eq!(error.message("x"), "number too large to fit in target type"),
        Ok(_) => panic!("accepted"),
    }
    match parse_iw_xml(&swath(1).replace("9554", "")) {
        Err(error) => assert_eq!(error.message("x"), "cannot parse integer from empty string"),
        Ok(_) => panic!("accepted"),
    }
}

#[test]
fn files_are_found_by_pattern() {
    let names = texts(&["IW2.xml", "IW1.xml", "IW.xml", "IW1.xml.bak", "data.rsc", "IW3.xml"]);
    assert_eq!(glob_local(&names, "IW*.xml"), texts(&["IW2.xml", "IW1.xml", "IW3.xml"]));
    assert_eq!(glob_local(&names, "data.rsc"), texts(&[]));
    assert_eq!(glob_local(&names, "data"), texts(&["data.rsc"]));
    assert_eq!(
        iw_files(&names, "/job/reference"),
        Ok(texts(&["IW1.xml", "IW2.xml", "IW3.xml"]))
    );
    assert_eq!(
        iw_files(&texts(&["data.rsc"]), "/job/reference"),
        Err("No IW*.xml files found in /job/reference".to_string())
    );
}

#[test]
fn newer_inputs_make_the_output_stale() {
    let at = |secs: i64| Some(Timestamp { secs, nanos: 0 });
    assert!(is_up_to_date(at(10), &vec![at(9), at(10)]));
    assert!(!is_up_to_date(at(10), &vec![at(9), at(11)]));
    assert!(!is_up_to_date(at(10), &vec![at(9), None]));
    assert!(!is_up_to_date(None, &vec![at(9)]));
}

#[test]
fn swaths_are_put_in_order() {
    let sorted = sort_by_swath(vec![meta(3), meta(1), meta(2)]);
    let numbers: Vec<u32> = sorted.iter().map(|m| m.swath_number).collect();
    assert_eq!(numbers, vec![1, 2, 3]);
}

#[test]
fn times_of_day_are_cut_at_colons() {
    match utc_to_seconds("2016-01-17 23:26:16.725734") {
        Ok(parts) => {
            assert_eq!(parts.hours, "23");
            assert_eq!(parts.minutes, "26");
            assert_eq!(parts.seconds, "16.725734");
        }
        Err(_) => panic!("refused"),
    }
    match utc_to_seconds("2016-01-17") {
        Err(error) => {
            assert!(matches!(error, UtcError::NoTime(_)));
            assert_eq!(error.message(), "No time part in datetime: 2016-01-17");
        }
        Ok(_) => panic!("accepted"),
    }
    match utc_to_seconds("d 23") {
        Err(error) => assert_eq!(error.message(), "Missing minutes"),
        Ok(_) => panic!("accepted"),
    }
    match utc_to_seconds("d 23:10") {
        Err(error) => assert_eq!(error.message(), "Missing seconds"),
        Ok(_) => panic!("accepted"),
    }
    match utc_to_seconds("d 23:10:05:06") {
        Err(error) => assert_eq!(error.message(), "invalid float literal"),
        Ok(_) => panic!("accepted"),
    }
    match utc_to_seconds("d :10:05") {
        Err(error) => assert_eq!(error.message(), "cannot parse float from empty string"),
        Ok(_) => panic!("accepted"),
    }
}

#[test]
fn looks_are_ratios() {
    let full = Some(Size { width: 1000, length: 505 });
    let small = Some(Size { width: 50, length: 100 });
    assert_eq!(compute_looks(full, small), Looks { azimuth: 5, range: 20 });
    assert_eq!(compute_looks(small, full), Looks { azimuth: 1, range: 1 });
    assert_eq!(compute_looks(None, small), Looks { azimuth: 1, range: 1 });
    assert_eq!(compute_looks(full, None), Looks { azimuth: 1, range: 1 });
}

#[test]
fn stacks_are_described_by_their_swaths() {
    let full = Some(Size { width: 1000, length: 505 });
    let small = Some(Size { width: 50, length: 100 });
    let stack = match describe_stack(vec![meta(2), meta(1)], full, None, None, small) {
        Ok(stack) => stack,
        Err(_) => panic!("refused"),
    };
    assert_eq!((stack.alooks, stack.rlooks), (5, 20));
    assert_eq!((stack.width, stack.length), (1000, 505));
    assert_eq!(stack.beam_swath, "12");
    assert_eq!(stack.platform, "sen");
    assert_eq!(stack.start.seconds, "16.725734");
    assert_eq!(stack.stop.seconds, "22.5");
    let numbers = RscNumbers {
        azimuth_pixel_size: "77.9".to_string(),
        center_line_utc: "84379.6".to_string(),
        ncorrlooks: "3.5".to_string(),
        prf: "1717.129".to_string(),
        range_pixel_size: "46.59".to_string(),
        starting_range: "800000.5".to_string(),
        wavelength: "0.05546576".to_string(),
    };
    let text = build_data_rsc(&stack, &numbers);
    assert_eq!(write_rsc(&stack, &numbers, "VV", "vv"), text);
    assert!(write_rsc(&stack, &numbers, "HH", "hv").contains("POLARIZATION              HH\n"));
    let lines: Vec<&str> = text.lines().collect();
    assert_eq!(lines.len(), 39);
    assert_eq!(lines[0], "ALOOKS                    5");
    assert_eq!(lines[1], "ANTENNA_SIDE              -1");
    assert_eq!(lines[2], "AZIMUTH_PIXEL_SIZE        77.9");
    assert_eq!(lines[4], "EARTH_RADIUS              6371000");
    assert_eq!(lines[6], "HEADING                   -166.4");
    assert_eq!(lines[12], "POLARIZATION              VV");
    assert_eq!(lines[24], "beam_swath                12");
    assert_eq!(lines[28], "polarization              vv");
    assert_eq!(lines[33], "satelliteSpeed            7581.695");
    assert_eq!(lines[38], "trackNumber               157");
    assert!(text.ends_with("157\n"));
}

#[test]
fn stacks_need_times_and_sizes() {
    let size = Some(Size { width: 10, length: 20 });
    match describe_stack(vec![meta(1)], None, None, size, None) {
        Ok(stack) => assert_eq!((stack.width, stack.alooks), (10, 1)),
        Err(_) => panic!("refused"),
    }
    assert!(matches!(
        describe_stack(vec![meta(1)], None, None, None, None),
        Err(StackError::NoSize)
    ));
    let mut late = meta(2);
    late.stop_utc = "never".to_string();
    assert!(matches!(
        describe_stack(vec![meta(1), late], size, None, None, None),
        Err(StackError::Utc(UtcError::NoTime(_)))
    ));
    let mut ascending = meta(1);
    ascending.pass_direction = "ASCENDING".to_string();
    ascending.spacecraft_name = "ALOS-2".to_string();
    match describe_stack(vec![ascending], size, None, None, None) {
        Ok(stack) => assert_eq!(stack.platform, "alos-2"),
        Err(_) => panic!("refused"),
    }
}

#[test]
fn stages_are_dispatched() {
    assert_eq!(valid_stages().len(), 15);
    assert_eq!(dispatch("load_data"), Ok(Task::LoadData));
    assert_eq!(dispatch("geocode"), Ok(Task::Step));
    assert_eq!(
        dispatch("velocity"),
        Err("Unknown stage 'velocity'. Valid stages: load_data, modify_network, reference_point, \
             quick_overview, correct_unwrap_error, invert_network, correct_lod, \
             correct_troposphere, correct_topography, residual_rms, deramp, correct_timeseries, \
             geocode, google_earth, hdfeos5"
            .to_string())
    );
    let command = run_stage("deramp", "/job/results");
    assert_eq!(command.program, "smallbaselineApp.py");
    assert_eq!(command.args, texts(&["--dir", "/job/results", "--dostep", "deramp"]));
    let other = run_stage("geocode", "/job/results");
    assert_ne!(command.args, other.args);
    assert_eq!(stage_outcome("deramp", Some(0)), Ok(()));
    assert_eq!(
        stage_outcome("deramp", Some(-1)),
        Err("smallbaselineApp.py --dostep deramp exited with code Some(-1)".to_string())
    );
    assert_eq!(
        stage_outcome("deramp", None),
        Err("smallbaselineApp.py --dostep deramp exited with code None".to_string())
    );
}

#[test]
fn the_command_line_names_a_stage() {
    assert_eq!(chosen_stage(&texts(&["runner", "deramp"])).as_deref(), Some("deramp"));
    assert_eq!(chosen_stage(&texts(&["runner"])), None);
    assert_eq!(chosen_stage(&texts(&["runner", "--help"])), None);
    assert_eq!(chosen_stage(&texts(&["runner", "-h"])), None);
    assert_eq!(print_help()[0], "mintpy-runner <stage_name>");
    assert_eq!(print_help()[3], "  load_data");
    assert_eq!(print_help().len(), 22);
    assert_eq!(job_dir(None), "/job");
    assert_eq!(job_dir(Some("/tmp".to_string())), "/tmp");
    assert_eq!(results_dir(None), "/job/results");
    assert_eq!(results_dir(Some("/out".to_string())), "/out");
}

#[test]
fn configurations_are_written_once() {
    assert_eq!(run_load_data(true, "/job", None), None);
    let text = match run_load_data(false, "/job", None) {
        Some(text) => text,
        None => panic!("nothing written"),
    };
    assert!(text.starts_with("## Auto-generated by mintpy-runner"));
    assert!(text.contains(
        "mintpy.load.unwFile          = /job/merged/interferograms/*/filt_*.unw\n"
    ));
    assert!(text.contains("mintpy.troposphericDelay.method = height_correlation\n"));
    assert!(text.ends_with("mintpy.save.hdfEos5.update   = yes\n"));
    match run_load_data(false, "/job", Some("pyaps".to_string())) {
        Some(text) => assert!(text.contains("mintpy.troposphericDelay.method = pyaps\n")),
        None => panic!("nothing written"),
    }
}

fn named(name: &str, value: &str) -> Property {
    Property { name: name.to_string(), value: value.to_string() }
}

#[test]
fn names_are_read_as_written() {
    let props = read_properties("<property name=\"WIDTH\">\n<value> 12 </value>\n");
    assert_eq!(props.len(), 1);
    assert_eq!((props[0].name.as_str(), props[0].value.as_str()), ("WIDTH", "12"));
    assert_eq!(read_size(&props), None);
    let size = vec![named("width", "12"), named("length", "7"), named("width", "x")];
    assert_eq!(read_size(&size), Some(Size { width: 12, length: 7 }));
    assert_eq!(read_size(&vec![named("width", "12"), named("length", "-7")]), None);
}

#[test]
fn metadata_is_read_as_written() {
    let props = parse_isce_xml_properties(&swath(3));
    match read_iw_props(&props) {
        Ok(meta) => {
            assert_eq!(meta.pass_direction, "descending");
            assert_eq!(meta.polarization, "vv");
            assert_eq!(meta.swath_number, 3);
            assert_eq!(meta.stop_utc, "2016-01-17 23:26:22.5");
        }
        Err(_) => panic!("refused"),
    }
    assert!(matches!(read_iw_props(&vec![]), Err(MetaError::Missing(_))));
    assert_eq!(meta(3).pass_direction, "DESCENDING");
    assert_eq!(meta(3).polarization, "VV");
}

#[test]
fn platforms_have_short_names() {
    assert_eq!(shorten_platform("the sentinel-1b".to_string()), "sen");
    assert_eq!(shorten_platform("Sentinel-1B".to_string()), "Sentinel-1B");
    assert_eq!(shorten_platform("alos".to_string()), "alos");
}
