//! The download pipeline: bursts that are missing from the archive are fetched,
//! stitched to SAFE directories and zipped; the elevation model and the orbits
//! follow where the container is in charge of them.
use vstd::prelude::*;

use crate::bursts::{BurstItem, BurstList};
use crate::number;
use crate::number::decimal_i64;
use crate::order;
use crate::order::sort_texts;
use crate::paths;
use crate::paths::join;
use crate::server::asf;
use crate::text;
use crate::text::{chars_of, concat2, concat3, concat4, ends_with, replace_all, string_of};

verus! {

/// The directory of the job, as seen inside the container.
pub const JOB_DIR: &'static str = "/job";

/// The directory of the archive, as seen inside the container.
pub const ARCHIVE_ROOT: &'static str = "/archive";

/// The ASF burst extractor.
pub const ASF_BURST_BASE: &'static str = "https://sentinel1-burst.asf.alaska.edu";

/// How many downloads run at a time if nothing else is said.
pub const DEFAULT_CONCURRENCY: u64 = 4;

/// What the container is in charge of.
#[derive(Debug, Clone, Copy, PartialEq, Eq, Structural)]
pub enum Container {
    /// Sentinel-1 bursts only, fetched side by side.
    Sentinel,
    /// Bursts fetched one by one, elevation model and orbits.
    Full,
    /// Bursts fetched one by one and stitched per date, elevation model and
    /// orbits.
    Stitching,
}

/// How many downloads run at a time: the number that the variable holds, if it
/// holds one.
pub fn concurrency(variable: Option<&str>) -> (r: u64)
    ensures
        r == (match variable {
            Some(value) => match number::parsed_integer(value@, false, 0, u64::MAX as int) {
                Some(n) => n,
                None => 4,
            },
            None => 4,
        }),
{
    match variable {
        Some(value) => match number::parse_u64(value) {
            Some(n) => n,
            None => DEFAULT_CONCURRENCY,
        },
        None => DEFAULT_CONCURRENCY,
    }
}

// ---------------------------------------------------------------------------
// The archive
// ---------------------------------------------------------------------------

/// The two files of a burst.
#[derive(Debug, Clone, Copy, PartialEq, Eq, Structural)]
pub enum FileKind {
    Tiff,
    Xml,
}

impl FileKind {
    /// The extension of the file.
    pub open spec fn ext(self) -> Seq<char> {
        match self {
            Self::Tiff => "tiff"@,
            Self::Xml => "xml"@,
        }
    }

    /// The extension of the file.
    pub fn extension(&self) -> (r: &'static str)
        ensures
            r@ == self.ext(),
    {
        match self {
            Self::Tiff => "tiff",
            Self::Xml => "xml",
        }
    }
}

/// The path where a burst file lives in the archive.
pub open spec fn archived(
    root: Seq<char>,
    slc: Seq<char>,
    sw: Seq<char>,
    pol: Seq<char>,
    idx: Seq<char>,
    ext: Seq<char>,
) -> Seq<char> {
    paths::joined_path(
        paths::joined_path(paths::joined_path(paths::joined_path(root, slc), sw), pol),
        idx + "."@ + ext,
    )
}

/// Returns the path where a burst file lives in the archive.
/// Layout: {archive_root}/{slc_granule}/{subswath}/{pol}/{index}.{ext}
pub fn archive_path(archive_root: &str, slc: &str, sw: &str, pol: &str, idx: &str, ext: &str) -> (r:
    String)
    ensures
        r@ == archived(archive_root@, slc@, sw@, pol@, idx@, ext@),
{
    let name = concat3(idx, ".", ext);
    join(
        join(join(join(archive_root, slc).as_str(), sw).as_str(), pol).as_str(),
        name.as_str(),
    )
}

/// Where a file of a burst goes: the names of granule, subswath and polarization
/// are in upper case.
pub open spec fn destination(item: BurstItem, kind: FileKind) -> Seq<char> {
    archived(
        "/archive"@,
        text::upper_text(item.key.granule@),
        text::upper_text(item.key.subswath@),
        text::upper_text(item.key.polarization@),
        item.key.index@,
        kind.ext(),
    )
}

/// Where the burst extractor offers a file of a burst.
pub open spec fn extractor_url(
    slc: Seq<char>,
    sw: Seq<char>,
    pol: Seq<char>,
    idx: Seq<char>,
    ext: Seq<char>,
) -> Seq<char> {
    ASF_BURST_BASE@ + "/"@ + slc + "/"@ + sw + "/"@ + pol + "/"@ + idx + "."@ + ext
}

/// Where the burst extractor offers a file of a burst.
pub fn burst_url(slc: &str, sw: &str, pol: &str, idx: &str, ext: &str) -> (r: String)
    ensures
        r@ == extractor_url(slc@, sw@, pol@, idx@, ext@),
{
    let mut url = ASF_BURST_BASE.to_owned();
    url.append("/");
    url.append(slc);
    url.append("/");
    url.append(sw);
    url.append("/");
    url.append(pol);
    url.append("/");
    url.append(idx);
    url.append(".");
    url.append(ext);
    url
}

/// Where a file of a burst comes from: the burst extractor.
pub open spec fn source(item: BurstItem, kind: FileKind) -> Seq<char> {
    extractor_url(
        text::upper_text(item.key.granule@),
        text::upper_text(item.key.subswath@),
        text::upper_text(item.key.polarization@),
        item.key.index@,
        kind.ext(),
    )
}

/// A file to download.
#[derive(Debug)]
pub struct Fetch {
    pub url: String,
    pub dest: String,
}

/// What a `Fetch` says.
#[verifier::ext_equal]
pub struct FetchModel {
    pub url: Seq<char>,
    pub dest: Seq<char>,
}

impl View for Fetch {
    type V = FetchModel;

    open spec fn view(&self) -> FetchModel {
        FetchModel { url: self.url@, dest: self.dest@ }
    }
}

/// The views of a list of files.
pub open spec fn fetch_models(v: Seq<Fetch>) -> Seq<FetchModel> {
    v.map_values(|f: Fetch| f@)
}

/// A file of a burst as something to download.
pub open spec fn fetch_of(item: BurstItem, kind: FileKind) -> FetchModel {
    FetchModel { url: source(item, kind), dest: destination(item, kind) }
}

fn fetch_for(item: &BurstItem, kind: FileKind) -> (r: Fetch)
    ensures
        r@ == fetch_of(*item, kind),
{
    let slc = item.key.granule.as_str().to_uppercase();
    let sw = item.key.subswath.as_str().to_uppercase();
    let pol = item.key.polarization.as_str().to_uppercase();
    let idx = item.key.index.as_str();
    let dest = archive_path(
        ARCHIVE_ROOT,
        slc.as_str(),
        sw.as_str(),
        pol.as_str(),
        idx,
        kind.extension(),
    );
    let url = burst_url(slc.as_str(), sw.as_str(), pol.as_str(), idx, kind.extension());
    Fetch { url, dest }
}

/// The paths of the image and of the metadata file of a burst in the archive.
#[derive(Debug)]
pub struct ArchivePaths {
    pub tiff: String,
    pub xml: String,
}

/// Where the files of each burst are to be looked for.
pub fn archive_paths(list: &BurstList) -> (r: Vec<ArchivePaths>)
    ensures
        r.len() == list.items.len(),
        forall|i: int|
            0 <= i < r.len() ==> (#[trigger] r[i]).tiff@ == destination(
                list.items[i],
                FileKind::Tiff,
            ) && r[i].xml@ == destination(list.items[i], FileKind::Xml),
{
    let mut out: Vec<ArchivePaths> = Vec::new();
    for i in 0..list.items.len()
        invariant
            out.len() == i,
            forall|j: int|
                0 <= j < i ==> (#[trigger] out[j]).tiff@ == destination(
                    list.items[j],
                    FileKind::Tiff,
                ) && out[j].xml@ == destination(list.items[j], FileKind::Xml),
    {
        let tiff = fetch_for(&list.items[i], FileKind::Tiff);
        let xml = fetch_for(&list.items[i], FileKind::Xml);
        out.push(ArchivePaths { tiff: tiff.dest, xml: xml.dest });
    }
    out
}

/// Which files of a burst are in the archive.
#[derive(Debug, Clone, Copy, PartialEq, Eq, Structural)]
pub struct Present {
    pub tiff: bool,
    pub xml: bool,
}

impl Present {
    /// Whether a file is in the archive.
    pub open spec fn has(self, kind: FileKind) -> bool {
        match kind {
            FileKind::Tiff => self.tiff,
            FileKind::Xml => self.xml,
        }
    }

    fn is_there(&self, kind: FileKind) -> (r: bool)
        ensures
            r == self.has(kind),
    {
        match kind {
            FileKind::Tiff => self.tiff,
            FileKind::Xml => self.xml,
        }
    }
}

/// The files of one kind that are missing from the archive.
pub open spec fn missing_kind(
    items: Seq<BurstItem>,
    present: Seq<Present>,
    kind: FileKind,
) -> Seq<FetchModel>
    decreases items.len(),
{
    if items.len() == 0 {
        Seq::empty()
    } else {
        let before = missing_kind(items.drop_last(), present.drop_last(), kind);
        if present.last().has(kind) {
            before
        } else {
            before.push(fetch_of(items.last(), kind))
        }
    }
}

/// The files that are missing from the archive, burst by burst.
pub open spec fn missing_bursts(
    items: Seq<BurstItem>,
    present: Seq<Present>,
) -> Seq<FetchModel>
    decreases items.len(),
{
    if items.len() == 0 {
        Seq::empty()
    } else {
        let before = missing_bursts(items.drop_last(), present.drop_last());
        let with_tiff = if present.last().tiff {
            before
        } else {
            before.push(fetch_of(items.last(), FileKind::Tiff))
        };
        if present.last().xml {
            with_tiff
        } else {
            with_tiff.push(fetch_of(items.last(), FileKind::Xml))
        }
    }
}

/// The downloads that a container makes, in order: burst by burst where they run
/// side by side, else all images before all metadata files.
pub open spec fn missing(
    items: Seq<BurstItem>,
    present: Seq<Present>,
    container: Container,
) -> Seq<FetchModel> {
    if container is Sentinel {
        missing_bursts(items, present)
    } else {
        missing_kind(items, present, FileKind::Tiff) + missing_kind(
            items,
            present,
            FileKind::Xml,
        )
    }
}

fn add_missing(
    out: &mut Vec<Fetch>,
    item: &BurstItem,
    present: &Present,
    kind: FileKind,
)
    ensures
        fetch_models(final(out)@) == (if present.has(kind) {
            fetch_models(old(out)@)
        } else {
            fetch_models(old(out)@).push(fetch_of(*item, kind))
        }),
{
    if !present.is_there(kind) {
        let ghost before = out@;
        out.push(fetch_for(item, kind));
        assert(fetch_models(out@) =~= fetch_models(before).push(fetch_of(*item, kind)));
    }
}

fn find_missing(
    list: &BurstList,
    present: &Vec<Present>,
    kind: FileKind,
) -> (r: Vec<Fetch>)
    requires
        present.len() == list.items.len(),
    ensures
        fetch_models(r@) == missing_kind(list.items@, present@, kind),
{
    let mut out: Vec<Fetch> = Vec::new();
    let ghost items = list.items@;
    assert(fetch_models(out@) =~= Seq::<FetchModel>::empty());
    for i in 0..list.items.len()
        invariant
            items == list.items@,
            present.len() == list.items.len(),
            fetch_models(out@) == missing_kind(
                items.take(i as int),
                present@.take(i as int),
                kind,
            ),
    {
        proof {
            assert(items.take(i + 1).drop_last() =~= items.take(i as int));
            assert(present@.take(i + 1).drop_last() =~= present@.take(i as int));
        }
        add_missing(&mut out, &list.items[i], &present[i], kind);
    }
    assert(items.take(list.items.len() as int) =~= items);
    assert(present@.take(list.items.len() as int) =~= present@);
    out
}

/// The downloads that a container makes, in order, where `present` says for each
/// burst which of its files are in the archive.
pub fn plan_downloads(list: &BurstList, present: &Vec<Present>, container: Container) -> (r: Vec<
    Fetch,
>)
    requires
        present.len() == list.items.len(),
    ensures
        fetch_models(r@) == missing(list.items@, present@, container),
{
    match container {
        Container::Sentinel => {
            let mut out: Vec<Fetch> = Vec::new();
            let ghost items = list.items@;
            assert(fetch_models(out@) =~= Seq::<FetchModel>::empty());
            for i in 0..list.items.len()
                invariant
                    items == list.items@,
                    present.len() == list.items.len(),
                    fetch_models(out@) == missing_bursts(
                        items.take(i as int),
                        present@.take(i as int),
                    ),
            {
                proof {
                    assert(items.take(i + 1).drop_last() =~= items.take(i as int));
                    assert(present@.take(i + 1).drop_last() =~= present@.take(i as int));
                }
                add_missing(&mut out, &list.items[i], &present[i], FileKind::Tiff);
                add_missing(&mut out, &list.items[i], &present[i], FileKind::Xml);
            }
            assert(items.take(list.items.len() as int) =~= items);
            assert(present@.take(list.items.len() as int) =~= present@);
            out
        },
        _ => {
            let mut out = find_missing(list, present, FileKind::Tiff);
            let mut xml = find_missing(list, present, FileKind::Xml);
            let ghost (a, b) = (out@, xml@);
            out.append(&mut xml);
            assert(fetch_models(out@) =~= fetch_models(a) + fetch_models(b));
            out
        },
    }
}

proof fn lemma_missing_kind(
    items: Seq<BurstItem>,
    present: Seq<Present>,
    kind: FileKind,
    i: int,
)
    requires
        items.len() == present.len(),
        0 <= i < items.len(),
        !present[i].has(kind),
    ensures
        missing_kind(items, present, kind).contains(
            fetch_of(items[i], kind),
        ),
    decreases items.len(),
{
    let all = missing_kind(items, present, kind);
    let wanted = fetch_of(items[i], kind);
    if i == items.len() - 1 {
        assert(all.last() == wanted);
    } else {
        let before = missing_kind(items.drop_last(), present.drop_last(), kind);
        lemma_missing_kind(items.drop_last(), present.drop_last(), kind, i);
        let k = choose|k: int| 0 <= k < before.len() && before[k] == wanted;
        assert(all[k] == wanted);
    }
}

proof fn lemma_missing_bursts(
    items: Seq<BurstItem>,
    present: Seq<Present>,
    kind: FileKind,
    i: int,
)
    requires
        items.len() == present.len(),
        0 <= i < items.len(),
        !present[i].has(kind),
    ensures
        missing_bursts(items, present).contains(fetch_of(items[i], kind)),
    decreases items.len(),
{
    let all = missing_bursts(items, present);
    let wanted = fetch_of(items[i], kind);
    let before = missing_bursts(items.drop_last(), present.drop_last());
    if i == items.len() - 1 {
        match kind {
            FileKind::Tiff => {
                assert(all[before.len() as int] == wanted);
            },
            FileKind::Xml => {
                assert(all.last() == wanted);
            },
        }
    } else {
        lemma_missing_bursts(items.drop_last(), present.drop_last(), kind, i);
        let k = choose|k: int| 0 <= k < before.len() && before[k] == wanted;
        assert(all[k] == wanted);
    }
}

/// Every file that is not in the archive is downloaded to where it belongs, so
/// that all files are there once the downloads are done.
pub proof fn missing_files_are_downloaded(
    items: Seq<BurstItem>,
    present: Seq<Present>,
    kind: FileKind,
    container: Container,
    i: int,
)
    requires
        items.len() == present.len(),
        0 <= i < items.len(),
    ensures
        present[i].has(kind) || missing(items, present, container).contains(
            fetch_of(items[i], kind),
        ),
{
    if !present[i].has(kind) {
        let wanted = fetch_of(items[i], kind);
        if container is Sentinel {
            lemma_missing_bursts(items, present, kind, i);
        } else {
            lemma_missing_kind(items, present, kind, i);
            let tiff = missing_kind(items, present, FileKind::Tiff);
            let xml = missing_kind(items, present, FileKind::Xml);
            let all = tiff + xml;
            match kind {
                FileKind::Tiff => {
                    let k = choose|k: int| 0 <= k < tiff.len() && tiff[k] == wanted;
                    assert(all[k] == wanted);
                },
                FileKind::Xml => {
                    let k = choose|k: int| 0 <= k < xml.len() && xml[k] == wanted;
                    assert(all[tiff.len() + k] == wanted);
                },
            }
        }
    }
}

/// Where everything is in the archive, nothing is downloaded.
pub proof fn full_archive_needs_no_download(
    items: Seq<BurstItem>,
    present: Seq<Present>,
    container: Container,
)
    requires
        items.len() == present.len(),
        forall|i: int| 0 <= i < present.len() ==> (#[trigger] present[i]).tiff && present[i].xml,
    ensures
        missing(items, present, container) == Seq::<FetchModel>::empty(),
    decreases items.len(),
{
    if items.len() > 0 {
        assert(present[items.len() - 1].tiff && present[items.len() - 1].xml);
        full_archive_needs_no_download(items.drop_last(), present.drop_last(), container);
        if !(container is Sentinel) {
            let a = missing_kind(items.drop_last(), present.drop_last(), FileKind::Tiff);
            let b = missing_kind(items.drop_last(), present.drop_last(), FileKind::Xml);
            assert((a + b).len() == a.len() + b.len());
            assert(missing(items, present, container) =~= Seq::<FetchModel>::empty());
        }
    } else {
        assert(missing(items, present, container) =~= Seq::<FetchModel>::empty());
    }
}

/// The files that the server's burst list names are those that the downloads
/// put into the archive, where the names of granule, subswath and polarization
/// are in upper case.
pub proof fn burst_list_names_archived_files(item: BurstItem)
    requires
        item.paths@ == asf::burst_files(item.key@),
        text::upper_text(item.key.granule@) == item.key.granule@,
        text::upper_text(item.key.subswath@) == item.key.subswath@,
        text::upper_text(item.key.polarization@) == item.key.polarization@,
    ensures
        destination(item, FileKind::Tiff) == item.paths.data@,
        destination(item, FileKind::Xml) == item.paths.metadata@,
{
    reveal_strlit(".");
    reveal_strlit("tiff");
    reveal_strlit(".tiff");
    reveal_strlit("xml");
    reveal_strlit(".xml");
    assert("."@ =~= seq!['.']);
    assert("."@ + "tiff"@ =~= ".tiff"@);
    assert("."@ + "xml"@ =~= ".xml"@);
    let idx = item.key.index@;
    let base = paths::joined_path(
        paths::joined_path(paths::joined_path("/archive"@, item.key.granule@), item.key.subswath@),
        item.key.polarization@,
    );
    lemma_extended_name(base, idx, "."@, "tiff"@);
    lemma_extended_name(base, idx, "."@, "xml"@);
}

proof fn lemma_extended_name(base: Seq<char>, idx: Seq<char>, dot: Seq<char>, ext: Seq<char>)
    requires
        dot == seq!['.'],
    ensures
        paths::joined_path(base, idx + dot + ext) == paths::joined_path(base, idx) + (dot + ext),
{
    let name = idx + dot + ext;
    assert(name == idx + (dot + ext)) by {
        assert(name =~= idx + (dot + ext));
    }
    if idx.len() > 0 {
        assert(name[0] == idx[0]);
    } else {
        assert(name[0] == '.');
    }
    assert(paths::joined_path(base, name) =~= paths::joined_path(base, idx) + (dot + ext));
}

// ---------------------------------------------------------------------------
// Commands
// ---------------------------------------------------------------------------

/// A program to run, its arguments, and the directory to run it in.
#[derive(Debug)]
pub struct CommandLine {
    pub program: &'static str,
    pub args: Vec<String>,
    pub cwd: String,
}

/// What a `CommandLine` says.
#[verifier::ext_equal]
pub struct CommandModel {
    pub program: Seq<char>,
    pub args: Seq<Seq<char>>,
    pub cwd: Seq<char>,
}

impl View for CommandLine {
    type V = CommandModel;

    open spec fn view(&self) -> CommandModel {
        CommandModel { program: self.program@, args: text::texts(self.args@), cwd: self.cwd@ }
    }
}

/// What is made of the end of a program, where `code` is its exit code, if it
/// has one.
pub fn run(program: &str, code: Option<i32>) -> (r: Result<(), String>)
    ensures
        match r {
            Ok(()) => code == Some(0i32),
            Err(message) => code != Some(0i32) && message@ == "`"@ + program@
                + "` exited with status "@ + number::decimal(
                match code {
                    Some(code) => code as int,
                    None => -1,
                },
            ),
        },
{
    let status: i32 = match code {
        Some(code) => code,
        None => -1,
    };
    if status == 0 {
        Ok(())
    } else {
        Err(
            concat4("`", program, "` exited with status ", decimal_i64(status as i64).as_str()),
        )
    }
}

/// The command that stitches the bursts of a list to SAFE directories.
pub open spec fn stitch_model(list: Seq<char>) -> CommandModel {
    CommandModel {
        program: "python3"@,
        args: seq![
            "/usr/local/bin/local2safe"@,
            list,
            "--all_anns"@,
            "--work_dir"@,
            "/job/data"@,
        ],
        cwd: "/job"@,
    }
}

/// The command that stitches the bursts of a list to SAFE directories.
pub fn stitch_command(list: &str) -> (r: CommandLine)
    ensures
        r@ == stitch_model(list@),
{
    let args = vec![
        "/usr/local/bin/local2safe".to_owned(),
        list.to_owned(),
        "--all_anns".to_owned(),
        "--work_dir".to_owned(),
        "/job/data".to_owned(),
    ];
    let command = CommandLine { program: "python3", args, cwd: "/job".to_owned() };
    assert(command@ =~= stitch_model(list@));
    command
}

/// The texts of the bounds of the elevation model.
#[derive(Debug)]
pub struct BoundsText {
    pub south: String,
    pub north: String,
    pub west: String,
    pub east: String,
}

/// The command that downloads the elevation model.
pub open spec fn dem_model(bounds: BoundsText) -> CommandModel {
    CommandModel {
        program: "python3"@,
        args: seq![
            "/usr/local/bin/download_dem"@,
            "--bounds"@,
            bounds.west@,
            bounds.south@,
            bounds.east@,
            bounds.north@,
            "--output"@,
            "/job/dem"@,
        ],
        cwd: "/job"@,
    }
}

/// The command that downloads the elevation model.
pub fn download_dem(bounds: &BoundsText) -> (r: CommandLine)
    ensures
        r@ == dem_model(*bounds),
{
    let args = vec![
        "/usr/local/bin/download_dem".to_owned(),
        "--bounds".to_owned(),
        bounds.west.clone(),
        bounds.south.clone(),
        bounds.east.clone(),
        bounds.north.clone(),
        "--output".to_owned(),
        "/job/dem".to_owned(),
    ];
    let command = CommandLine { program: "python3", args, cwd: "/job".to_owned() };
    assert(command@ =~= dem_model(*bounds));
    command
}

/// The command that downloads the orbits that match the zipped SAFEs.
pub open spec fn orbits_model() -> CommandModel {
    CommandModel {
        program: "eof"@,
        args: seq!["--save-dir"@, "/job/orbits"@, "--search-path"@, "/job/data"@],
        cwd: "/job"@,
    }
}

/// The command that downloads the orbits that match the zipped SAFEs.
pub fn download_orbits() -> (r: CommandLine)
    ensures
        r@ == orbits_model(),
{
    let args = vec![
        "--save-dir".to_owned(),
        "/job/orbits".to_owned(),
        "--search-path".to_owned(),
        "/job/data".to_owned(),
    ];
    let command = CommandLine { program: "eof", args, cwd: "/job".to_owned() };
    assert(command@ =~= orbits_model());
    command
}

// ---------------------------------------------------------------------------
// SAFE directories
// ---------------------------------------------------------------------------

/// A SAFE directory to zip at maximum compression. The command runs in the data
/// directory and names the directory itself, so that it is the single top-level
/// entry of the archive. The directory is removed afterwards.
#[derive(Debug)]
pub struct ZipTask {
    pub name: String,
    pub command: CommandLine,
}

/// The command that zips a SAFE directory.
pub open spec fn zip_model(data_dir: Seq<char>, name: Seq<char>) -> CommandModel {
    CommandModel {
        program: "zip"@,
        args: seq![
            "-r"@,
            "-9"@,
            paths::joined_path(data_dir, text::replaced(name, ".SAFE"@, ".zip"@)),
            name,
        ],
        cwd: data_dir,
    }
}

/// An entry of the data directory.
#[derive(Debug)]
pub struct DataEntry {
    /// The file name, where it is text.
    pub name: Option<String>,
    pub is_dir: bool,
}

impl DataEntry {
    /// Whether the entry is a directory whose name is no text.
    pub open spec fn unnamed(self) -> bool {
        self.is_dir && self.name is None
    }

    /// Whether the entry is a SAFE directory.
    pub open spec fn is_safe(self) -> bool {
        self.is_dir && self.name is Some && ".SAFE"@.is_suffix_of((self.name->0)@)
    }
}

/// The SAFE directories among entries, up to the first directory whose name is
/// no text.
pub open spec fn safe_names(entries: Seq<DataEntry>) -> Seq<Seq<char>>
    decreases entries.len(),
{
    if entries.len() == 0 || entries[0].unnamed() {
        Seq::empty()
    } else if entries[0].is_safe() {
        seq![(entries[0].name->0)@] + safe_names(entries.drop_first())
    } else {
        safe_names(entries.drop_first())
    }
}

/// What to zip.
#[derive(Debug)]
pub struct ZipPlan {
    pub tasks: Vec<ZipTask>,
    /// Whether zipping ends with a directory whose name is no text.
    pub invalid_name: bool,
}

/// The names of a list of tasks.
pub open spec fn task_names(tasks: Seq<ZipTask>) -> Seq<Seq<char>> {
    tasks.map_values(|t: ZipTask| t.name@)
}

fn zip_task(data_dir: &str, name: &String) -> (r: ZipTask)
    ensures
        r.name@ == name@,
        r.command@ == zip_model(data_dir@, name@),
{
    proof {
        reveal_strlit(".SAFE");
    }
    let zip_name = replace_all(name.as_str(), ".SAFE", ".zip");
    let args = vec![
        "-r".to_owned(),
        "-9".to_owned(),
        join(data_dir, zip_name.as_str()),
        name.clone(),
    ];
    let command = CommandLine { program: "zip", args, cwd: data_dir.to_owned() };
    assert(command@ =~= zip_model(data_dir@, name@));
    ZipTask { name: name.clone(), command }
}

/// Zips every SAFE directory among the entries of the data directory, in order.
/// A directory whose name is no text ends it.
pub fn zip_safes(data_dir: &str, entries: &Vec<DataEntry>) -> (r: ZipPlan)
    ensures
        task_names(r.tasks@) == safe_names(entries@),
        forall|i: int|
            0 <= i < r.tasks.len() ==> (#[trigger] r.tasks[i]).command@ == zip_model(
                data_dir@,
                r.tasks[i].name@,
            ),
        r.invalid_name <==> exists|i: int| 0 <= i < entries.len() && (#[trigger] entries[i]).unnamed(),
{
    let mut tasks: Vec<ZipTask> = Vec::new();
    let ghost all = entries@;
    assert(all.skip(0) =~= all);
    assert(task_names(tasks@) + safe_names(all) =~= safe_names(all));
    for i in 0..entries.len()
        invariant
            all == entries@,
            task_names(tasks@) + safe_names(all.skip(i as int)) == safe_names(all),
            forall|j: int|
                0 <= j < tasks.len() ==> (#[trigger] tasks[j]).command@ == zip_model(
                    data_dir@,
                    tasks[j].name@,
                ),
            forall|j: int| 0 <= j < i ==> !(#[trigger] entries[j]).unnamed(),
    {
        let ghost rest = all.skip(i as int);
        let ghost before = tasks@;
        let entry = &entries[i];
        proof {
            assert(rest[0] == *entry);
            assert(rest.drop_first() =~= all.skip(i + 1));
        }
        if entry.is_dir {
            match &entry.name {
                None => {
                    proof {
                        assert(entries[i as int].unnamed());
                        assert(task_names(tasks@) + Seq::<Seq<char>>::empty() =~= task_names(tasks@));
                    }
                    return ZipPlan { tasks, invalid_name: true };
                },
                Some(name) => {
                    if ends_with(name.as_str(), ".SAFE") {
                        tasks.push(zip_task(data_dir, name));
                        proof {
                            let later = safe_names(all.skip(i + 1));
                            assert(task_names(tasks@) =~= task_names(before).push(name@));
                            assert(task_names(before) + (seq![name@] + later)
                                =~= task_names(tasks@) + later);
                        }
                    }
                },
            }
        }
    }
    assert(all.skip(entries.len() as int) =~= Seq::<DataEntry>::empty());
    assert(task_names(tasks@) + Seq::<Seq<char>>::empty() =~= task_names(tasks@));
    ZipPlan { tasks, invalid_name: false }
}

// ---------------------------------------------------------------------------
// Stitch files
// ---------------------------------------------------------------------------

/// Whether a file name has the extension of JSON files behind a name.
pub open spec fn is_json(name: Seq<char>) -> bool {
    name.len() > 5 && ".json"@.is_suffix_of(name)
}

/// The JSON files among the names of a directory.
pub open spec fn json_names(names: Seq<Seq<char>>) -> Seq<Seq<char>>
    decreases names.len(),
{
    if names.len() == 0 {
        Seq::empty()
    } else if is_json(names.last()) {
        json_names(names.drop_last()).push(names.last())
    } else {
        json_names(names.drop_last())
    }
}

/// The JSON files among the names of the directory of stitch lists, sorted so
/// that execution order is deterministic (alphabetical on YYYY-mm-dd is
/// chronological). There has to be one.
pub fn stitch_files(names: &Vec<String>) -> (r: Result<Vec<String>, &'static str>)
    ensures
        match r {
            Ok(files) => {
                &&& files.len() > 0
                &&& order::sorted(text::texts(files@))
                &&& text::texts(files@).to_multiset() == json_names(
                    text::texts(names@),
                ).to_multiset()
            },
            Err(message) => json_names(text::texts(names@)).len() == 0 && message@
                == "No .json files found in /job/burst_stitch"@,
        },
{
    let mut files: Vec<String> = Vec::new();
    let ghost all = text::texts(names@);
    assert(text::texts(files@) =~= json_names(all.take(0)));
    for i in 0..names.len()
        invariant
            all == text::texts(names@),
            text::texts(files@) == json_names(all.take(i as int)),
    {
        proof {
            assert(all.take(i + 1).drop_last() =~= all.take(i as int));
            assert(all.take(i + 1).last() == names[i as int]@);
        }
        let ghost before = files@;
        let name = &names[i];
        if chars_of(name.as_str()).len() > 5 && ends_with(name.as_str(), ".json") {
            files.push(name.clone());
            assert(text::texts(files@) =~= text::texts(before).push(name@));
        }
    }
    assert(all.take(names.len() as int) =~= all);
    if files.len() == 0 {
        return Err("No .json files found in /job/burst_stitch");
    }
    let sorted = sort_texts(files);
    proof {
        let (a, b) = (text::texts(sorted@), text::texts(files@));
        a.to_multiset_ensures();
        b.to_multiset_ensures();
        assert(a.len() == b.len());
    }
    Ok(sorted)
}

/// The stitch list that the server writes for a date is among those that are
/// stitched.
pub proof fn written_stitch_lists_are_found(date: Seq<char>, names: Seq<Seq<char>>)
    requires
        date.len() > 0,
        names.contains(date + ".json"@),
    ensures
        json_names(names).contains(date + ".json"@),
    decreases names.len(),
{
    reveal_strlit(".json");
    let file = date + ".json"@;
    let found = json_names(names);
    let rest = names.drop_last();
    assert(file.skip(file.len() - 5) =~= ".json"@);
    assert(is_json(file));
    if names.last() == file {
        assert(found.last() == file);
    } else {
        let i = choose|i: int| 0 <= i < names.len() && names[i] == file;
        assert(rest[i] == file);
        written_stitch_lists_are_found(date, rest);
        let before = json_names(rest);
        let k = choose|k: int| 0 <= k < before.len() && before[k] == file;
        assert(found[k] == file);
    }
}

// ---------------------------------------------------------------------------
// The tasks
// ---------------------------------------------------------------------------

/// A piece of work behind the downloads.
#[derive(Debug)]
pub enum Task {
    CreateDirectory(&'static str),
    /// Run a command; it failed with this message where it did.
    Run { command: CommandLine, failure: String },
    /// Zip the SAFE directories of the data directory.
    ZipSafes,
}

/// What a `Task` says.
pub enum TaskModel {
    CreateDirectory(Seq<char>),
    Run { command: CommandModel, failure: Seq<char> },
    ZipSafes,
}

impl View for Task {
    type V = TaskModel;

    open spec fn view(&self) -> TaskModel {
        match *self {
            Task::CreateDirectory(dir) => TaskModel::CreateDirectory(dir@),
            Task::Run { command, failure } => TaskModel::Run {
                command: command@,
                failure: failure@,
            },
            Task::ZipSafes => TaskModel::ZipSafes,
        }
    }
}

/// The views of a list of tasks.
pub open spec fn task_models(tasks: Seq<Task>) -> Seq<TaskModel> {
    tasks.map_values(|t: Task| t@)
}

/// The task that stitches the bursts of a file of the directory of stitch lists.
pub open spec fn date_task(file: Seq<char>) -> TaskModel {
    TaskModel::Run {
        command: stitch_model(paths::joined_path("/job/burst_stitch"@, file)),
        failure: "local2safe failed for "@ + file.take(file.len() - 5),
    }
}

/// The tasks that stitch the bursts: one for the whole list, or one per date.
pub open spec fn stitch_tasks(container: Container, files: Seq<Seq<char>>) -> Seq<TaskModel> {
    if container is Stitching {
        files.map_values(|file: Seq<char>| date_task(file))
    } else {
        seq![
            TaskModel::Run {
                command: stitch_model("/job/burst_list.json"@),
                failure: "local2safe failed"@,
            },
        ]
    }
}

/// The tasks behind the zipping of the SAFE directories.
pub open spec fn final_tasks(container: Container, bounds: BoundsText) -> Seq<TaskModel> {
    if container is Sentinel {
        Seq::empty()
    } else {
        seq![
            TaskModel::CreateDirectory("/job/dem"@),
            TaskModel::Run { command: dem_model(bounds), failure: "DEM download failed"@ },
            TaskModel::CreateDirectory("/job/orbits"@),
            TaskModel::Run { command: orbits_model(), failure: "sentineleof (eof) failed"@ },
        ]
    }
}

/// The work behind the downloads, in order.
pub open spec fn tasks_of(container: Container, files: Seq<Seq<char>>, bounds: BoundsText) -> Seq<
    TaskModel,
> {
    seq![TaskModel::CreateDirectory("/job/data"@)] + stitch_tasks(container, files) + seq![
        TaskModel::ZipSafes,
    ] + final_tasks(container, bounds)
}

/// The work behind the downloads, in order: the SAFE directories are made and
/// zipped, then the elevation model and the orbits are downloaded where the
/// container is in charge of them. `files` are the stitch lists, which only a
/// container that stitches per date looks at.
pub fn run_download(container: Container, files: &Vec<String>, bounds: &BoundsText) -> (r: Vec<
    Task,
>)
    requires
        container is Stitching ==> forall|i: int|
            0 <= i < files.len() ==> (#[trigger] files[i])@.len() >= 5,
    ensures
        task_models(r@) == tasks_of(container, text::texts(files@), *bounds),
{
    let mut tasks = vec![Task::CreateDirectory("/job/data")];
    let ghost head = seq![TaskModel::CreateDirectory("/job/data"@)];
    let ghost names = text::texts(files@);
    assert(task_models(tasks@) =~= head);
    match container {
        Container::Stitching => {
            assert(head + stitch_tasks(container, names.take(0)) =~= head);
            for i in 0..files.len()
                invariant
                    container is Stitching,
                    names == text::texts(files@),
                    forall|i: int| 0 <= i < files.len() ==> (#[trigger] files[i])@.len() >= 5,
                    task_models(tasks@) == head + stitch_tasks(container, names.take(i as int)),
            {
                let ghost before = tasks@;
                let file = files[i].as_str();
                let chars = chars_of(file);
                let label = string_of(&chars, 0, chars.len() - 5);
                assert(label@ =~= file@.take(file@.len() - 5));
                let path = join("/job/burst_stitch", file);
                tasks.push(
                    Task::Run {
                        command: stitch_command(path.as_str()),
                        failure: concat2("local2safe failed for ", label.as_str()),
                    },
                );
                proof {
                    assert(task_models(tasks@) =~= task_models(before).push(date_task(file@)));
                    assert(names.take(i + 1) =~= names.take(i as int).push(file@));
                    assert(stitch_tasks(container, names.take(i + 1)) =~= stitch_tasks(
                        container,
                        names.take(i as int),
                    ).push(date_task(file@)));
                }
            }
            assert(names.take(files.len() as int) =~= names);
        },
        _ => {
            let ghost before = tasks@;
            tasks.push(
                Task::Run {
                    command: stitch_command("/job/burst_list.json"),
                    failure: "local2safe failed".to_owned(),
                },
            );
            assert(task_models(tasks@) =~= head + stitch_tasks(container, names));
        },
    }
    let ghost stitched = tasks@;
    tasks.push(Task::ZipSafes);
    assert(task_models(tasks@) =~= task_models(stitched) + seq![TaskModel::ZipSafes]);
    match container {
        Container::Sentinel => {},
        _ => {
            let ghost zipped = tasks@;
            tasks.push(Task::CreateDirectory("/job/dem"));
            tasks.push(
                Task::Run {
                    command: download_dem(bounds),
                    failure: "DEM download failed".to_owned(),
                },
            );
            tasks.push(Task::CreateDirectory("/job/orbits"));
            tasks.push(
                Task::Run {
                    command: download_orbits(),
                    failure: "sentineleof (eof) failed".to_owned(),
                },
            );
            assert(task_models(tasks@) =~= task_models(zipped) + final_tasks(container, *bounds));
        },
    }
    assert(task_models(tasks@) =~= tasks_of(container, names, *bounds));
    tasks
}

/// The orbits are downloaded after the SAFE directories have been zipped: the
/// orbit tool finds the acquisition times in the names of the zip files.
pub proof fn orbits_follow_zipping(
    container: Container,
    files: Seq<Seq<char>>,
    bounds: BoundsText,
    i: int,
)
    requires
        0 <= i < tasks_of(container, files, bounds).len(),
        tasks_of(container, files, bounds)[i] == (TaskModel::Run {
            command: orbits_model(),
            failure: "sentineleof (eof) failed"@,
        }),
    ensures
        exists|j: int|
            0 <= j < i && #[trigger] tasks_of(container, files, bounds)[j] is ZipSafes,
{
    let all = tasks_of(container, files, bounds);
    let stitch = stitch_tasks(container, files);
    let zip = 1 + stitch.len() as int;
    assert(all[zip] is ZipSafes);
    reveal_strlit("python3");
    reveal_strlit("eof");
    assert("python3"@.len() == 7);
    assert("eof"@.len() == 3);
    if 0 < i < zip {
        assert(all[i] == stitch[i - 1]);
        if container is Stitching {
            assert(stitch[i - 1] == date_task(files[i - 1]));
        }
        assert(all[i]->command.program == "python3"@);
    }
}

// ---------------------------------------------------------------------------
// Laws
// ---------------------------------------------------------------------------

/// Whether a text is one component of a path.
pub open spec fn is_component(name: Seq<char>) -> bool {
    name.len() > 0 && !name.contains('/')
}

/// A file is saved below the archive where its URL has it below the burst
/// extractor: granule, subswath, polarization, index and extension stand in both,
/// in that order.
pub proof fn files_are_saved_where_their_url_says(item: BurstItem, kind: FileKind)
    requires
        is_component(text::upper_text(item.key.granule@)),
        is_component(text::upper_text(item.key.subswath@)),
        is_component(text::upper_text(item.key.polarization@)),
        is_component(item.key.index@),
    ensures
        ({
            let rest = "/"@ + text::upper_text(item.key.granule@) + "/"@ + text::upper_text(
                item.key.subswath@,
            ) + "/"@ + text::upper_text(item.key.polarization@) + "/"@ + item.key.index@ + "."@ + (
            match kind {
                FileKind::Tiff => "tiff"@,
                FileKind::Xml => "xml"@,
            });
            &&& fetch_of(item, kind).url == "https://sentinel1-burst.asf.alaska.edu"@ + rest
            &&& fetch_of(item, kind).dest == "/archive"@ + rest
        }),
{
    reveal_strlit("/archive");
    reveal_strlit("/");
    let (g, s, p, x) = (
        text::upper_text(item.key.granule@),
        text::upper_text(item.key.subswath@),
        text::upper_text(item.key.polarization@),
        item.key.index@,
    );
    let ext = kind.ext();
    let name = x + "."@ + ext;
    lemma_component_joins("/archive"@, g);
    let a = "/archive"@ + "/"@ + g;
    assert(a.last() == g.last());
    lemma_component_joins(a, s);
    let b = a + "/"@ + s;
    assert(b.last() == s.last());
    lemma_component_joins(b, p);
    let c = b + "/"@ + p;
    assert(c.last() == p.last());
    assert(name[0] == x[0]);
    assert(x.contains(x[0]));
    assert(p.contains(p.last()));
    assert(paths::joined_path(c, name) == c + "/"@ + name);
    let rest = "/"@ + g + "/"@ + s + "/"@ + p + "/"@ + x + "."@ + ext;
    assert(c + "/"@ + name =~= "/archive"@ + rest);
    assert(fetch_of(item, kind).url =~= ASF_BURST_BASE@ + rest);
}

proof fn lemma_component_joins(base: Seq<char>, name: Seq<char>)
    requires
        is_component(name),
        base.len() > 0,
        base.last() != '/',
    ensures
        paths::joined_path(base, name) == base + "/"@ + name,
        name.last() != '/',
{
    assert(name.contains(name[0]));
    assert(name.contains(name.last()));
}

/// Only what is missing is downloaded: each download is of a file of some burst
/// that is not in the archive.
pub proof fn only_missing_files_are_downloaded(
    items: Seq<BurstItem>,
    present: Seq<Present>,
    container: Container,
    fetch: FetchModel,
)
    requires
        items.len() == present.len(),
        missing(items, present, container).contains(fetch),
    ensures
        exists|i: int, kind: FileKind|
            0 <= i < items.len() && !present[i].has(kind) && fetch == #[trigger] fetch_of(
                items[i],
                kind,
            ),
{
    if container is Sentinel {
        lemma_only_missing_bursts(items, present, fetch);
    } else {
        let tiff = missing_kind(items, present, FileKind::Tiff);
        let xml = missing_kind(items, present, FileKind::Xml);
        let k = choose|k: int| 0 <= k < (tiff + xml).len() && (tiff + xml)[k] == fetch;
        if k < tiff.len() {
            assert(tiff[k] == fetch);
            lemma_only_missing_kind(items, present, FileKind::Tiff, fetch);
        } else {
            assert(xml[k - tiff.len()] == fetch);
            lemma_only_missing_kind(items, present, FileKind::Xml, fetch);
        }
    }
}

proof fn lemma_only_missing_kind(
    items: Seq<BurstItem>,
    present: Seq<Present>,
    kind: FileKind,
    fetch: FetchModel,
)
    requires
        items.len() == present.len(),
        missing_kind(items, present, kind).contains(fetch),
    ensures
        exists|i: int|
            0 <= i < items.len() && !present[i].has(kind) && fetch == #[trigger] fetch_of(
                items[i],
                kind,
            ),
    decreases items.len(),
{
    let all = missing_kind(items, present, kind);
    let k = choose|k: int| 0 <= k < all.len() && all[k] == fetch;
    let (rest, rest_present) = (items.drop_last(), present.drop_last());
    let before = missing_kind(rest, rest_present, kind);
    let n = items.len() - 1;
    if k < before.len() {
        assert(before[k] == fetch);
        lemma_only_missing_kind(rest, rest_present, kind, fetch);
        let i = choose|i: int|
            0 <= i < rest.len() && !rest_present[i].has(kind) && fetch == #[trigger] fetch_of(
                rest[i],
                kind,
            );
        assert(rest[i] == items[i] && rest_present[i] == present[i]);
        assert(fetch == fetch_of(items[i], kind));
    } else {
        assert(fetch == fetch_of(items[n], kind));
    }
}

proof fn lemma_only_missing_bursts(
    items: Seq<BurstItem>,
    present: Seq<Present>,
    fetch: FetchModel,
)
    requires
        items.len() == present.len(),
        missing_bursts(items, present).contains(fetch),
    ensures
        exists|i: int, kind: FileKind|
            0 <= i < items.len() && !present[i].has(kind) && fetch == #[trigger] fetch_of(
                items[i],
                kind,
            ),
    decreases items.len(),
{
    let all = missing_bursts(items, present);
    let k = choose|k: int| 0 <= k < all.len() && all[k] == fetch;
    let (rest, rest_present) = (items.drop_last(), present.drop_last());
    let before = missing_bursts(rest, rest_present);
    let n = items.len() - 1;
    if k < before.len() {
        assert(before[k] == fetch);
        lemma_only_missing_bursts(rest, rest_present, fetch);
        let (i, kind) = choose|i: int, kind: FileKind|
            0 <= i < rest.len() && !rest_present[i].has(kind) && fetch == #[trigger] fetch_of(
                rest[i],
                kind,
            );
        assert(rest[i] == items[i] && rest_present[i] == present[i]);
        assert(fetch == fetch_of(items[i], kind));
    } else if k == before.len() && !present[n].tiff {
        assert(!present[n].has(FileKind::Tiff) && fetch == fetch_of(items[n], FileKind::Tiff));
    } else {
        assert(!present[n].has(FileKind::Xml) && fetch == fetch_of(items[n], FileKind::Xml));
    }
}

/// What follows the downloads: a container that stitches per date stitches each
/// date from the list of that date, any other stitches the whole list; all zip what
/// they stitched; and only the container for Sentinel images leaves the elevation
/// model and the orbits to others. The elevation model spans the bounds it is
/// given, as west, south, east and north; the orbits are looked up for the data of
/// the job.
pub proof fn downloads_are_followed_by_their_work(
    container: Container,
    files: Seq<Seq<char>>,
    bounds: BoundsText,
)
    ensures
        ({
            let tasks = tasks_of(container, files, bounds);
            let stitches = if container is Stitching {
                files.len() as int
            } else {
                1
            };
            &&& tasks.len() == if container is Sentinel {
                stitches + 2
            } else {
                stitches + 6
            }
            &&& tasks[0] == TaskModel::CreateDirectory("/job/data"@)
            &&& forall|i: int|
                0 <= i < stitches ==> (#[trigger] tasks[1 + i] matches TaskModel::Run { command, .. }
                    && command.program == "python3"@ && command.args == seq![
                    "/usr/local/bin/local2safe"@,
                    if container is Stitching {
                        paths::joined_path("/job/burst_stitch"@, files[i])
                    } else {
                        "/job/burst_list.json"@
                    },
                    "--all_anns"@,
                    "--work_dir"@,
                    "/job/data"@,
                ])
            &&& tasks[1 + stitches] is ZipSafes
            &&& !(container is Sentinel) ==> {
                &&& tasks[2 + stitches] == TaskModel::CreateDirectory("/job/dem"@)
                &&& tasks[3 + stitches] matches TaskModel::Run { command, .. } && command.program
                    == "python3"@ && command.args == seq![
                    "/usr/local/bin/download_dem"@,
                    "--bounds"@,
                    bounds.west@,
                    bounds.south@,
                    bounds.east@,
                    bounds.north@,
                    "--output"@,
                    "/job/dem"@,
                ]
                &&& tasks[4 + stitches] == TaskModel::CreateDirectory("/job/orbits"@)
                &&& tasks[5 + stitches] matches TaskModel::Run { command, .. } && command.program
                    == "eof"@ && command.args == seq![
                    "--save-dir"@,
                    "/job/orbits"@,
                    "--search-path"@,
                    "/job/data"@,
                ]
            }
        }),
{
    let tasks = tasks_of(container, files, bounds);
    let stitch = stitch_tasks(container, files);
    let last = final_tasks(container, bounds);
    let n = stitch.len() as int;
    assert forall|i: int| 0 <= i < n implies #[trigger] tasks[1 + i] == stitch[i] by {}
    assert(tasks[1 + n] is ZipSafes);
    if !(container is Sentinel) {
        assert(tasks[2 + n] == last[0]);
        assert(tasks[3 + n] == last[1]);
        assert(tasks[4 + n] == last[2]);
        assert(tasks[5 + n] == last[3]);
    }
}

proof fn lemma_replaced_at_end(base: Seq<char>, from: Seq<char>, to: Seq<char>)
    requires
        from.len() > 0,
        forall|i: int| 0 <= i < base.len() ==> !#[trigger] text::occurs_at(base + from, from, i),
    ensures
        text::replaced(base + from, from, to) == base + to,
    decreases base.len(),
{
    let s = base + from;
    if base.len() == 0 {
        assert(s =~= from);
        assert(s.subrange(0, from.len() as int) =~= from);
        assert(text::occurs_at(s, from, 0));
        assert(s.skip(from.len() as int) =~= Seq::<char>::empty());
        assert(text::replaced(Seq::<char>::empty(), from, to) =~= Seq::<char>::empty());
        assert(text::replaced(s, from, to) =~= base + to);
    } else {
        let rest = base.drop_first();
        assert(!text::occurs_at(s, from, 0));
        assert(s.skip(1) =~= rest + from);
        assert forall|i: int| 0 <= i < rest.len() implies !#[trigger] text::occurs_at(
            rest + from,
            from,
            i,
        ) by {
            if text::occurs_at(rest + from, from, i) {
                assert(s.subrange(i + 1, i + 1 + from.len()) =~= (rest + from).subrange(
                    i,
                    i + from.len(),
                ));
                assert(text::occurs_at(s, from, i + 1));
            }
        }
        lemma_replaced_at_end(rest, from, to);
        assert(text::replaced(s, from, to) =~= base + to);
    }
}

/// A SAFE directory is zipped from within the data directory, to the file beside it
/// that has its name with the other extension.
pub proof fn directories_are_zipped_beside_themselves(data_dir: Seq<char>, base: Seq<char>)
    requires
        data_dir.len() > 0 && data_dir.last() != '/',
        base.len() > 0 && base[0] != '/',
        forall|i: int|
            0 <= i < base.len() ==> !#[trigger] text::occurs_at(base + ".SAFE"@, ".SAFE"@, i),
    ensures
        ({
            let command = zip_model(data_dir, base + ".SAFE"@);
            &&& command.program == "zip"@
            &&& command.cwd == data_dir
            &&& command.args == seq![
                "-r"@,
                "-9"@,
                data_dir + "/"@ + base + ".zip"@,
                base + ".SAFE"@,
            ]
        }),
{
    reveal_strlit(".SAFE");
    lemma_replaced_at_end(base, ".SAFE"@, ".zip"@);
    let name = base + ".zip"@;
    assert(name[0] == base[0]);
    assert(paths::joined_path(data_dir, name) =~= data_dir + "/"@ + base + ".zip"@);
}

/// What is zipped are the directories whose name ends in `.SAFE`, all of them, where
/// the name of every directory is text.
pub proof fn every_directory_is_zipped(entries: Seq<DataEntry>, name: Seq<char>)
    requires
        forall|i: int| 0 <= i < entries.len() ==> !(#[trigger] entries[i]).unnamed(),
    ensures
        safe_names(entries).contains(name) <==> exists|i: int|
            0 <= i < entries.len() && (#[trigger] entries[i]).is_dir && text::opt_text(
                entries[i].name,
            ) == Some(name) && ".SAFE"@.is_suffix_of(name),
    decreases entries.len(),
{
    if entries.len() > 0 {
        let first = entries[0];
        let rest = entries.drop_first();
        let found = safe_names(rest);
        let all = safe_names(entries);
        assert forall|i: int| 0 <= i < rest.len() implies !(#[trigger] rest[i]).unnamed() by {
            assert(rest[i] == entries[i + 1]);
        }
        every_directory_is_zipped(rest, name);
        let skip: int = all.len() - found.len();
        if found.contains(name) {
            let k = choose|k: int| 0 <= k < found.len() && found[k] == name;
            assert(all[k + skip] == name);
            let i = choose|i: int|
                0 <= i < rest.len() && (#[trigger] rest[i]).is_dir && text::opt_text(rest[i].name)
                    == Some(name) && ".SAFE"@.is_suffix_of(name);
            assert(entries[i + 1] == rest[i]);
        }
        if all.contains(name) && !found.contains(name) {
            let k = choose|k: int| 0 <= k < all.len() && all[k] == name;
            if k >= skip {
                assert(found[k - skip] == name);
            }
            assert(first.is_safe());
            assert(entries[0].is_dir);
        }
        if exists|i: int|
            0 <= i < entries.len() && (#[trigger] entries[i]).is_dir && text::opt_text(
                entries[i].name,
            ) == Some(name) && ".SAFE"@.is_suffix_of(name) {
            let i = choose|i: int|
                0 <= i < entries.len() && (#[trigger] entries[i]).is_dir && text::opt_text(
                    entries[i].name,
                ) == Some(name) && ".SAFE"@.is_suffix_of(name);
            if i > 0 {
                assert(rest[i - 1] == entries[i]);
            } else {
                assert(all[0] == name);
            }
        }
    }
}

} // verus!
