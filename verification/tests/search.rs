use sisar::float64::{Float64, Number};
use sisar::server::asf::{
    apply_adjacent_burst_fallback, burst_entry, burst_lists, bursts_per_acquisition_gt1, check_dates,
    choose_path, group_features, query_asf, scenes, select_best_path, select_features,
    write_search_url, BurstProperties, Properties,
};
use sisar::server::specification::{
    write_job_files, Rect, Specification, SpecificationParams, MINTPY_PARAMS,
};
use sisar::shared::types::{FlightPathError, JobRequest, Sensor};
use sisar::time::NaiveDate;

fn number(value: f64) -> Number {
    Number { value: Float64 { bits: value.to_bits() }, text: format!("{}", value) }
}

fn float(value: f64) -> Float64 {
    Float64 { bits: value.to_bits() }
}

fn floats(all: &[f64]) -> Vec<Float64> {
    all.iter().map(|v| float(*v)).collect()
}

fn feature(path: usize, date: &str, index: i64, subswath: &str) -> Properties {
    Properties {
        path_number: path,
        tiff_url: format!("https://asf.example/S1_{}_{}/IW1/VV/{}.tiff", path, date, index),
        metadata_url: "https://asf.example/x.xml".to_string(),
        start_time: format!("{}T10:00:00Z", date),
        burst: BurstProperties { burst_index: index, subswath: subswath.to_string() },
        scene_name: "S1".to_string(),
    }
}

fn job_request() -> JobRequest {
    JobRequest {
        sensor: None,
        workflow: None,
        path: None,
        range_looks: None,
        azimuth_looks: None,
        connections: None,
        prepaid_code: None,
        north: number(2.5),
        south: number(1.0),
        east: number(-4.0),
        west: number(-5.25),
        start: NaiveDate { days: 738886 },
        end: NaiveDate { days: 738946 },
    }
}

#[test]
fn features_are_grouped_by_path() {
    let features = vec![
        feature(10, "2024-01-01", 3, "iw1"),
        feature(20, "2024-01-02", 3, "iw1"),
        feature(10, "2024-01-13", 3, "iw1"),
        feature(10, "2024-01-13", 4, "iw1"),
        feature(10, "2024-01-13", 4, "iw2"),
    ];
    assert!(check_dates(&features));
    let groups = group_features(&features);
    assert_eq!(groups.len(), 2);
    assert_eq!(groups[0].path, 10);
    assert_eq!(groups[0].features, vec![0, 2, 3, 4]);
    assert_eq!(groups[0].dates, vec!["2024-01-01", "2024-01-13"]);
    assert_eq!(groups[0].seen_bursts.len(), 3);
    assert_eq!(groups[0].footprint, vec![0, 3, 4]);
    assert_eq!(groups[1].features, vec![1]);
    assert_eq!(bursts_per_acquisition_gt1(&groups[0]), 0);
    let mut short = features;
    short[1].start_time = "2024".to_string();
    assert!(!check_dates(&short));
}

#[test]
fn the_best_path_is_chosen() {
    let features = vec![
        feature(30, "2024-01-01", 1, "IW1"),
        feature(20, "2024-01-01", 1, "IW1"),
        feature(20, "2024-01-02", 1, "IW1"),
        feature(10, "2024-01-01", 1, "IW1"),
    ];
    let groups = group_features(&features);
    // Coverage comes first, then dates, then the path number.
    assert_eq!(select_best_path(&groups, &floats(&[0.9, 0.5, 0.5])), Ok(0));
    assert_eq!(select_best_path(&groups, &floats(&[0.5, 0.5, 0.5])), Ok(1));
    assert_eq!(select_best_path(&groups, &floats(&[0.5, 0.1, 0.5])), Ok(2));
    assert_eq!(
        select_best_path(&vec![], &vec![]),
        Err(FlightPathError::InsufficientMaterial)
    );
}

#[test]
fn fewer_bursts_per_acquisition_are_preferred() {
    let mut features = vec![];
    for index in 0..4 {
        features.push(feature(10, "2024-01-01", index, "IW1"));
    }
    for index in 0..2 {
        features.push(feature(20, "2024-01-01", index, "IW1"));
    }
    let groups = group_features(&features);
    assert_eq!(bursts_per_acquisition_gt1(&groups[0]), 4);
    assert_eq!(bursts_per_acquisition_gt1(&groups[1]), 2);
    assert_eq!(select_best_path(&groups, &floats(&[1.0, 1.0])), Ok(1));
}

#[test]
fn explicit_paths_need_coverage() {
    let features = vec![feature(30, "2024-01-01", 1, "IW1"), feature(20, "2024-01-01", 1, "IW1")];
    let groups = group_features(&features);
    assert_eq!(choose_path(&groups, &floats(&[0.9, 0.01]), Some(20)), Ok(1));
    assert_eq!(
        choose_path(&groups, &floats(&[0.9, 0.009]), Some(20)),
        Err(FlightPathError::InvalidPath)
    );
    assert_eq!(
        choose_path(&groups, &floats(&[0.9, 0.9]), Some(40)),
        Err(FlightPathError::InvalidPath)
    );
    assert_eq!(choose_path(&groups, &floats(&[0.9, 0.95]), None), Ok(1));
}

#[test]
fn single_bursts_get_a_neighbour() {
    let features = vec![
        feature(10, "2024-01-01", 5, "IW1"),
        feature(10, "2024-01-13", 5, "IW1"),
        feature(20, "2024-01-01", 4, "IW1"),
    ];
    let groups = group_features(&features);
    assert_eq!(apply_adjacent_burst_fallback(&groups[0], &features), vec![0, 1]);
    let features = vec![
        feature(10, "2024-01-01", 0, "IW1"),
        feature(10, "2024-01-13", 0, "IW1"),
        feature(10, "2024-01-13", 1, "IW1"),
    ];
    let groups = group_features(&features);
    assert_eq!(apply_adjacent_burst_fallback(&groups[0], &features), vec![0, 1, 2]);
    let features = vec![feature(10, "2024-01-01", 5, "IW1"), feature(10, "2024-01-01", 4, "IW1")];
    let groups = group_features(&features);
    assert_eq!(apply_adjacent_burst_fallback(&groups[0], &features), vec![0, 1]);
}

#[test]
fn neighbours_come_from_all_features_and_once() {
    let features = vec![
        feature(10, "2024-01-01", 5, "IW1"),
        feature(10, "2024-01-01", 4, "IW1"),
        feature(10, "2024-01-13", 5, "IW1"),
        feature(10, "2024-01-13", 4, "IW2"),
        feature(10, "2024-01-13", 4, "IW1"),
    ];
    let mut selected = group_features(&features).remove(0);
    selected.features = vec![0, 2];
    assert_eq!(apply_adjacent_burst_fallback(&selected, &features), vec![0, 2, 1, 4]);
    selected.features = vec![2, 0, 4];
    assert_eq!(apply_adjacent_burst_fallback(&selected, &features), vec![2, 0, 4]);
    selected.features = vec![0, 4];
    assert_eq!(apply_adjacent_burst_fallback(&selected, &features), vec![0, 4, 1]);
    selected.features = vec![];
    assert_eq!(apply_adjacent_burst_fallback(&selected, &features), Vec::<usize>::new());
}

#[test]
fn two_bursts_per_acquisition_need_no_neighbour() {
    let features = vec![
        feature(83, "2025-10-02", 4, "IW1"),
        feature(83, "2025-10-02", 3, "IW1"),
        feature(83, "2025-10-14", 4, "IW1"),
        feature(83, "2025-10-14", 3, "IW1"),
    ];
    let groups = group_features(&features);
    assert_eq!(apply_adjacent_burst_fallback(&groups[0], &features), vec![0, 1, 2, 3]);
}

#[test]
fn searches_select_and_list_bursts() {
    let features = vec![
        feature(10, "2024-01-01", 5, "iw1"),
        feature(10, "2024-01-13", 5, "iw1"),
        feature(20, "2024-01-01", 4, "iw1"),
    ];
    let groups = group_features(&features);
    let selection = match select_features(&features, &groups, &floats(&[0.5, 0.1]), None) {
        Ok(selection) => selection,
        Err(_) => panic!("refused"),
    };
    assert_eq!(selection.path, 10);
    assert_eq!(selection.at, vec![0, 1]);
    assert_eq!(
        scenes(&features, &selection.at),
        Some(vec!["S1_10_2024-01-01".to_string(), "S1_10_2024-01-13".to_string()])
    );
    let lists = match burst_lists(&features, &selection.at) {
        Some(lists) => lists,
        None => panic!("no lists"),
    };
    assert_eq!(lists.burst_list.items.len(), 2);
    let item = &lists.burst_list.items[0];
    assert_eq!(item.key.granule, "S1_10_2024-01-01");
    assert_eq!(item.key.subswath, "IW1");
    assert_eq!(item.key.polarization, "VV");
    assert_eq!(item.key.index, "5");
    assert_eq!(item.paths.data, "/archive/S1_10_2024-01-01/IW1/VV/5.tiff");
    assert_eq!(item.paths.metadata, "/archive/S1_10_2024-01-01/IW1/VV/5.xml");
    assert_eq!(lists.burst_stitch.dates.len(), 2);
    assert_eq!(lists.burst_stitch.dates[1].date, "2024-01-13");
    assert_eq!(lists.burst_stitch.dates[1].list.items.len(), 1);
    assert_eq!(
        select_features(&vec![], &vec![], &vec![], None).err(),
        Some(FlightPathError::InsufficientMaterial)
    );
    let mut bad = features;
    bad[0].tiff_url = "no url".to_string();
    assert!(burst_lists(&bad, &vec![0]).is_none());
}

#[test]
fn search_urls_name_bounds_and_dates() {
    let expected = "https://asf?dataset=SLC-BURST&polarization=VV&\
                    intersectsWith=polygon%28%28-5.25+2.5,-4+2.5,-4+1,-5.25+1,-5.25+2.5%29%29\
                    &start=2024-01-01&end=2024-03-01&output=geojson";
    assert_eq!(query_asf(&job_request(), "https://asf").as_deref(), Some(expected));
    let mut nisar = job_request();
    nisar.sensor = Some(Sensor::Nisar);
    assert!(write_search_url(&nisar, "e", "a", "b").starts_with("e?dataset=NISAR&"));
    let mut never = job_request();
    never.end = NaiveDate { days: i32::MAX };
    assert_eq!(query_asf(&never, "https://asf"), None);
}

#[test]
fn job_files_are_laid_out() {
    let params = SpecificationParams {
        dem_bbox: Rect {
            min_x: float(1.0),
            min_y: float(2.0),
            max_x: float(3.0),
            max_y: float(4.0),
        },
        aoi_north: float(3.5),
        aoi_south: float(2.5),
        aoi_east: float(2.9),
        aoi_west: float(1.1),
        range_looks: 20,
        azimuth_looks: 5,
        connections: 1,
    };
    let spec = Specification::new(&params);
    assert_eq!(spec.folders.dem, "/job/dem/full_res.dem.wgs84");
    assert_eq!(spec.dem.bounds.south, float(2.0));
    assert_eq!(spec.dem.bounds.north, float(4.0));
    assert_eq!(spec.dem.bounds.west, float(1.0));
    assert_eq!(spec.dem.bounds.east, float(3.0));
    assert_eq!(spec.processing.bounds.north, float(3.5));
    assert_eq!(spec.processing.bounds.west, float(1.1));
    assert_eq!((spec.isce.range_looks, spec.isce.azimuth_looks, spec.isce.connections), (20, 5, 1));
    assert!(spec.isce.virt);
    assert_eq!(spec.mintpy.tropo, "height_correlation");
    let features = vec![feature(10, "2024-01-01", 5, "iw1")];
    let lists = match burst_lists(&features, &vec![0]) {
        Some(lists) => lists,
        None => panic!("no lists"),
    };
    let files = write_job_files("/jobs/1", &params, &lists.burst_stitch);
    assert_eq!(files.directories.len(), 8);
    assert_eq!(files.directories[0], "/jobs/1/data");
    assert_eq!(files.specification_path, "/jobs/1/specification.toml");
    assert_eq!(files.burst_list_path, "/jobs/1/burst_list.json");
    assert_eq!(files.stitch_paths, vec!["/jobs/1/burst_stitch/2024-01-01.json"]);
    assert_eq!(files.mintpy_path, "/jobs/1/series/mintpy_params.cfg");
    assert_eq!(files.mintpy_params, MINTPY_PARAMS);
    assert!(MINTPY_PARAMS.starts_with("mintpy.load.processor        = isce\n"));
    assert_eq!(MINTPY_PARAMS.lines().count(), 22);
}

#[test]
fn entries_name_the_archive() {
    let (key, paths) = burst_entry("S1A_SLC", "IW2".to_string(), -7);
    assert_eq!(key.granule, "S1A_SLC");
    assert_eq!(key.subswath, "IW2");
    assert_eq!(key.polarization, "VV");
    assert_eq!(key.index, "-7");
    assert_eq!(paths.data, "/archive/S1A_SLC/IW2/VV/-7.tiff");
    assert_eq!(paths.metadata, "/archive/S1A_SLC/IW2/VV/-7.xml");
}
