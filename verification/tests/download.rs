use sisar::bursts::{BurstKey, BurstList, BurstPaths};
use sisar::download::earthdata::{
    filename_from_url, holds_signature, is_presigned_s3, last_name, load_creds, parse_netrc,
    Answer, Download, DownloadAction, Next, MAX_POLLS,
};
use sisar::download::pipeline::{
    archive_path, archive_paths, burst_url, concurrency, download_dem, download_orbits, plan_downloads, run,
    run_download, stitch_command, stitch_files, zip_safes, BoundsText, Container, DataEntry,
    Present, Task,
};

fn texts(all: &[&str]) -> Vec<String> {
    all.iter().map(|s| s.to_string()).collect()
}

fn bounds() -> BoundsText {
    BoundsText {
        south: "1".to_string(),
        north: "2".to_string(),
        west: "3".to_string(),
        east: "4".to_string(),
    }
}

fn list() -> BurstList {
    let mut list = BurstList::new();
    for index in ["7", "8"] {
        list.insert(
            BurstKey {
                granule: "s1a_slc".to_string(),
                subswath: "iw2".to_string(),
                polarization: "vv".to_string(),
                index: index.to_string(),
            },
            BurstPaths { data: "/archive/x.tiff".to_string(), metadata: "/archive/x.xml".to_string() },
        );
    }
    list
}

fn answer(status: u16, location: Option<&str>) -> Answer {
    Answer {
        status,
        status_text: format!("{} Name", status),
        location: location.map(|s| s.to_string()),
    }
}

fn begun(url: &str) -> Download {
    match Download::start(url) {
        Ok((download, _)) => download,
        Err(_) => panic!("refused"),
    }
}

#[test]
fn credentials_come_in_pairs() {
    match load_creds(Some("u".to_string()), Some("p".to_string())) {
        Some(creds) => assert_eq!((creds.user.as_str(), creds.pass.as_str()), ("u", "p")),
        None => panic!("no credentials"),
    }
    assert!(load_creds(Some("u".to_string()), None).is_none());
    assert!(load_creds(None, Some("p".to_string())).is_none());
}

#[test]
fn netrc_files_are_searched() {
    let found = |contents: &str| match parse_netrc(contents, "~/.netrc") {
        Ok(creds) => format!("{}:{}", creds.user, creds.pass),
        Err(message) => message,
    };
    assert_eq!(
        found("machine example.org login a password b\nmachine urs.earthdata.nasa.gov\n  login me\n  password secret\n"),
        "me:secret"
    );
    assert_eq!(found("machine earthdata.nasa.gov login me"), "No password found in ~/.netrc");
    assert_eq!(found("machine example.org login a password b"), "No login found in ~/.netrc");
    assert_eq!(
        found("machine earthdata.nasa.gov login me default password x"),
        "No password found in ~/.netrc"
    );
    assert_eq!(found("default machine earthdata.nasa.gov login a password b login c"), "c:b");
    assert_eq!(found("machine earthdata.nasa.gov password b login"), "No login found in ~/.netrc");
}

#[test]
fn signed_urls_carry_their_own_auth() {
    assert!(holds_signature(&texts(&["a", "X-Amz-Signature"])));
    assert!(!holds_signature(&texts(&["x-amz-signature"])));
    assert!(is_presigned_s3("https://s3/x?X-Amz-Date=1&X-Amz-Signature=abc"));
    assert!(!is_presigned_s3("https://s3/x?signature=abc"));
    assert!(is_presigned_s3("https://s3/x?X-Amz%2DSignature=abc"));
    assert!(!is_presigned_s3("no url"));
}

#[test]
fn file_names_are_last_segments() {
    assert_eq!(filename_from_url("https://host/a/b/7.tiff?x=1").as_deref(), Some("7.tiff"));
    assert_eq!(filename_from_url("https://host/a/"), None);
    assert_eq!(filename_from_url("https://host"), None);
    assert_eq!(filename_from_url("mailto:someone"), None);
    assert_eq!(filename_from_url("nothing"), None);
    assert_eq!(last_name(&texts(&["a", "b"])).as_deref(), Some("b"));
    assert_eq!(last_name(&texts(&["a", ""])), None);
}

#[test]
fn downloads_follow_redirects() {
    match Download::start("https://host/a/b") {
        Ok((download, DownloadAction::Get { wait_secs, auth })) => {
            assert_eq!(download.url, "https://host/a/b");
            assert_eq!(wait_secs, 0);
            assert!(auth);
        }
        _ => panic!("refused"),
    }
    assert_eq!(Download::start("nothing").err(), Some("Invalid URL"));
    let mut download = begun("https://host/a/b");
    assert!(matches!(
        download.step(&answer(302, Some("../c?X-Amz-Signature=1"))),
        DownloadAction::Get { wait_secs: 0, auth: false }
    ));
    assert_eq!(download.url, "https://host/c?X-Amz-Signature=1");
    assert!(matches!(download.step(&answer(200, None)), DownloadAction::Save));
    let message = |mut download: Download, answer: Answer| match download.step(&answer) {
        DownloadAction::Fail(message) => message,
        _ => panic!("no failure"),
    };
    assert_eq!(
        message(begun("https://host/a"), answer(301, None)),
        "Redirect with no Location header"
    );
    assert_eq!(
        message(begun("https://host/a"), answer(301, Some("https://[bad"))),
        "Bad redirect URL"
    );
    assert_eq!(
        message(begun("https://host/a"), answer(404, None)),
        "HTTP 404 Name from https://host/a"
    );
}

#[test]
fn downloads_poll_with_growing_waits() {
    let mut download = begun("https://host/a");
    for attempt in 1..21 {
        match download.step(&answer(202, None)) {
            DownloadAction::Get { wait_secs, .. } => assert_eq!(wait_secs, 3 * attempt),
            _ => panic!("wrong action"),
        }
    }
    match download.step(&answer(202, None)) {
        DownloadAction::Fail(message) => assert_eq!(message, "File not ready after 20 polls"),
        _ => panic!("wrong action"),
    }
    let mut download = begun("https://host/a");
    download.step(&answer(202, None));
    match download.step(&answer(500, None)) {
        DownloadAction::Fail(message) => {
            assert_eq!(message, "Unexpected status 500 Name while polling")
        }
        _ => panic!("wrong action"),
    }
    let mut download = begun("https://host/a");
    download.step(&answer(202, None));
    download.step(&answer(302, Some("/b")));
    assert_eq!((download.url.as_str(), download.poll), ("https://host/b", 0));
}

#[test]
fn concurrency_is_read_or_defaulted() {
    assert_eq!(concurrency(Some("8")), 8);
    assert_eq!(concurrency(Some("many")), 4);
    assert_eq!(concurrency(Some("-1")), 4);
    assert_eq!(concurrency(None), 4);
}

#[test]
fn missing_files_come_from_the_extractor() {
    assert_eq!(
        archive_path("/archive", "SLC", "IW1", "VV", "3", "xml"),
        "/archive/SLC/IW1/VV/3.xml"
    );
    let paths = archive_paths(&list());
    assert_eq!(paths[0].tiff, "/archive/S1A_SLC/IW2/VV/7.tiff");
    assert_eq!(paths[1].xml, "/archive/S1A_SLC/IW2/VV/8.xml");
    let none = vec![Present { tiff: false, xml: false }, Present { tiff: false, xml: false }];
    let order = |container: Container| {
        plan_downloads(&list(), &none, container)
            .iter()
            .map(|f| f.dest.replace("/archive/S1A_SLC/IW2/VV/", ""))
            .collect::<Vec<String>>()
    };
    assert_eq!(order(Container::Sentinel), texts(&["7.tiff", "7.xml", "8.tiff", "8.xml"]));
    assert_eq!(order(Container::Full), texts(&["7.tiff", "8.tiff", "7.xml", "8.xml"]));
    assert_eq!(order(Container::Stitching), texts(&["7.tiff", "8.tiff", "7.xml", "8.xml"]));
    let some = vec![Present { tiff: true, xml: false }, Present { tiff: true, xml: true }];
    let fetches = plan_downloads(&list(), &some, Container::Stitching);
    assert_eq!(fetches.len(), 1);
    assert_eq!(
        fetches[0].url,
        "https://sentinel1-burst.asf.alaska.edu/S1A_SLC/IW2/VV/7.xml"
    );
    let all = vec![Present { tiff: true, xml: true }, Present { tiff: true, xml: true }];
    assert!(plan_downloads(&list(), &all, Container::Full).is_empty());
}

#[test]
fn commands_are_put_together() {
    assert_eq!(run("zip", Some(0)), Ok(()));
    assert_eq!(run("zip", Some(12)), Err("`zip` exited with status 12".to_string()));
    assert_eq!(run("zip", None), Err("`zip` exited with status -1".to_string()));
    let stitch = stitch_command("/job/burst_list.json");
    assert_eq!(stitch.program, "python3");
    assert_eq!(
        stitch.args,
        texts(&[
            "/usr/local/bin/local2safe",
            "/job/burst_list.json",
            "--all_anns",
            "--work_dir",
            "/job/data",
        ])
    );
    assert_eq!(
        download_dem(&bounds()).args,
        texts(&[
            "/usr/local/bin/download_dem",
            "--bounds",
            "3",
            "1",
            "4",
            "2",
            "--output",
            "/job/dem",
        ])
    );
    let orbits = download_orbits();
    assert_eq!(orbits.program, "eof");
    assert_eq!(orbits.args, texts(&["--save-dir", "/job/orbits", "--search-path", "/job/data"]));
}

#[test]
fn safe_directories_are_zipped() {
    let entry = |name: Option<&str>, is_dir: bool| DataEntry {
        name: name.map(|s| s.to_string()),
        is_dir,
    };
    let plan = zip_safes(
        "/job/data",
        &vec![
            entry(Some("A.SAFE"), true),
            entry(Some("B.SAFE"), false),
            entry(Some("notes"), true),
            entry(None, false),
            entry(Some("C.SAFE"), true),
        ],
    );
    assert!(!plan.invalid_name);
    assert_eq!(plan.tasks.len(), 2);
    assert_eq!(plan.tasks[0].name, "A.SAFE");
    assert_eq!(plan.tasks[0].command.args, texts(&["-r", "-9", "/job/data/A.zip", "A.SAFE"]));
    assert_eq!(plan.tasks[0].command.cwd, "/job/data");
    assert_eq!(plan.tasks[1].name, "C.SAFE");
    let plan = zip_safes(
        "/job/data",
        &vec![entry(Some("A.SAFE"), true), entry(None, true), entry(Some("C.SAFE"), true)],
    );
    assert!(plan.invalid_name);
    assert_eq!(plan.tasks.len(), 1);
}

#[test]
fn stitch_lists_are_sorted() {
    assert_eq!(
        stitch_files(&texts(&["2024-02-01.json", "x.txt", ".json", "2024-01-01.json"])),
        Ok(texts(&["2024-01-01.json", "2024-02-01.json"]))
    );
    assert_eq!(
        stitch_files(&texts(&["x.txt"])),
        Err("No .json files found in /job/burst_stitch")
    );
}

fn shown(task: &Task) -> String {
    match task {
        Task::CreateDirectory(dir) => format!("mkdir {}", dir),
        Task::Run { command, failure } => format!("{} ({})", command.program, failure),
        Task::ZipSafes => "zip".to_string(),
    }
}

#[test]
fn work_follows_the_downloads_in_order() {
    let tasks = |container: Container, files: &[&str]| {
        run_download(container, &texts(files), &bounds()).iter().map(shown).collect::<Vec<String>>()
    };
    assert_eq!(
        tasks(Container::Sentinel, &[]),
        texts(&["mkdir /job/data", "python3 (local2safe failed)", "zip"])
    );
    assert_eq!(
        tasks(Container::Full, &[]),
        texts(&[
            "mkdir /job/data",
            "python3 (local2safe failed)",
            "zip",
            "mkdir /job/dem",
            "python3 (DEM download failed)",
            "mkdir /job/orbits",
            "eof (sentineleof (eof) failed)",
        ])
    );
    assert_eq!(
        tasks(Container::Stitching, &["2024-01-01.json", "2024-02-01.json"]),
        texts(&[
            "mkdir /job/data",
            "python3 (local2safe failed for 2024-01-01)",
            "python3 (local2safe failed for 2024-02-01)",
            "zip",
            "mkdir /job/dem",
            "python3 (DEM download failed)",
            "mkdir /job/orbits",
            "eof (sentineleof (eof) failed)",
        ])
    );
}

#[test]
fn bursts_come_from_the_extractor() {
    assert_eq!(
        burst_url("S1A_SLC", "IW2", "VV", "7", "tiff"),
        "https://sentinel1-burst.asf.alaska.edu/S1A_SLC/IW2/VV/7.tiff"
    );
}

#[test]
fn answers_are_followed() {
    let answer = |status: u16, location: Option<&str>| Answer {
        status,
        status_text: format!("{} Name", status),
        location: location.map(|l| l.to_string()),
    };
    let fresh = |poll: u32| Download { url: "https://host/a".to_string(), poll };
    let mut download = fresh(5);
    let target = Some("https://other/b".to_string());
    assert!(matches!(
        download.follow(&answer(302, Some("x")), target),
        Next::Ask { wait_secs: 0 }
    ));
    assert_eq!((download.url.as_str(), download.poll), ("https://other/b", 0));
    assert!(matches!(download.follow(&answer(202, None), None), Next::Ask { wait_secs: 3 }));
    assert!(matches!(download.follow(&answer(202, None), None), Next::Ask { wait_secs: 6 }));
    assert_eq!(download.poll, 2);
    assert!(matches!(download.follow(&answer(200, None), None), Next::Save));
    let message = |poll: u32, answer: Answer| match fresh(poll).follow(&answer, None) {
        Next::Fail(message) => message,
        _ => panic!("no failure"),
    };
    assert_eq!(message(0, answer(301, None)), "Redirect with no Location header");
    assert_eq!(message(0, answer(301, Some(":"))), "Bad redirect URL");
    assert_eq!(message(MAX_POLLS, answer(202, None)), "File not ready after 20 polls");
    assert_eq!(message(1, answer(404, None)), "Unexpected status 404 Name while polling");
    assert_eq!(message(0, answer(404, None)), "HTTP 404 Name from https://host/a");
}
