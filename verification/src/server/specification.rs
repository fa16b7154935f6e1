//! The files that describe a job to the containers that process it.
use vstd::prelude::*;

use crate::float64::Float64;
use crate::paths;
use crate::paths::{join, join2};
use crate::server::asf::BurstStitchMap;
use crate::shared::types;
use crate::shared::types::JobRequest;
use crate::text;
use crate::text::concat2;

verus! {

// ---------------------------------------------------------------------------
// The specification
// ---------------------------------------------------------------------------

/// The full contents of `specification.toml` written by the server.
///
/// The download and ISCE2 containers read it directly.
#[derive(Debug)]
pub struct Specification {
    pub folders: Folders,
    pub dem: DemSection,
    pub isce: IsceSection,
    pub processing: ProcessingSection,
    pub mintpy: MintpySection,
}

/// Where things lie, as seen inside the containers.
#[derive(Debug)]
pub struct Folders {
    pub home: &'static str,
    pub data: &'static str,
    pub orbits: &'static str,
    pub dem: &'static str,
    pub aux: &'static str,
    pub weather: &'static str,
}

/// The elevation model.
#[derive(Debug, Clone, Copy, PartialEq, Eq, Structural)]
pub struct DemSection {
    pub bounds: Bounds,
}

/// An area in degrees.
#[derive(Debug, Clone, Copy, PartialEq, Eq, Structural)]
pub struct Bounds {
    pub south: Float64,
    pub north: Float64,
    pub west: Float64,
    pub east: Float64,
}

/// Parameters of the ISCE2 container.
#[derive(Debug, Clone, Copy, PartialEq, Eq, Structural)]
pub struct IsceSection {
    pub range_looks: u32,
    pub azimuth_looks: u32,
    pub connections: u8,
    pub virt: bool,
}

/// The area to process.
#[derive(Debug, Clone, Copy, PartialEq, Eq, Structural)]
pub struct ProcessingSection {
    pub bounds: Bounds,
}

/// Parameters of the MintPy container.
#[derive(Debug)]
pub struct MintpySection {
    pub tropo: &'static str,
}

/// A rectangle, by its lowest and highest longitude and latitude.
#[derive(Debug, Clone, Copy, PartialEq, Eq, Structural)]
pub struct Rect {
    pub min_x: Float64,
    pub min_y: Float64,
    pub max_x: Float64,
    pub max_y: Float64,
}

/// What the specification of a job depends on.
#[derive(Debug, Clone, Copy, PartialEq, Eq, Structural)]
pub struct SpecificationParams {
    /// Bounding box of the burst union, used for `[dem.bounds]`.
    pub dem_bbox: Rect,
    /// AOI bounding box, used for `[processing.bounds]`.
    pub aoi_north: Float64,
    pub aoi_south: Float64,
    pub aoi_east: Float64,
    pub aoi_west: Float64,
    pub range_looks: u32,
    pub azimuth_looks: u32,
    pub connections: u8,
}

impl Specification {
    /// Whether the specification is that of a job with these parameters.
    pub open spec fn describes(self, params: SpecificationParams) -> bool {
        &&& self.folders.home@ == "/job"@
        &&& self.folders.data@ == "/job/data"@
        &&& self.folders.orbits@ == "/job/orbits"@
        &&& self.folders.dem@ == "/job/dem/full_res.dem.wgs84"@
        &&& self.folders.aux@ == "/job/aux"@
        &&& self.folders.weather@ == "/job/weather"@
        &&& self.dem.bounds == Bounds {
            south: params.dem_bbox.min_y,
            north: params.dem_bbox.max_y,
            west: params.dem_bbox.min_x,
            east: params.dem_bbox.max_x,
        }
        &&& self.isce == IsceSection {
            range_looks: params.range_looks,
            azimuth_looks: params.azimuth_looks,
            connections: params.connections,
            virt: true,
        }
        &&& self.processing.bounds == Bounds {
            south: params.aoi_south,
            north: params.aoi_north,
            west: params.aoi_west,
            east: params.aoi_east,
        }
        &&& self.mintpy.tropo@ == "height_correlation"@
    }

    /// The specification of a job.
    pub fn new(params: &SpecificationParams) -> (r: Specification)
        ensures
            r.describes(*params),
    {
        Specification {
            folders: Folders {
                home: "/job",
                data: "/job/data",
                orbits: "/job/orbits",
                dem: "/job/dem/full_res.dem.wgs84",
                aux: "/job/aux",
                weather: "/job/weather",
            },
            dem: DemSection {
                bounds: Bounds {
                    south: params.dem_bbox.min_y,
                    north: params.dem_bbox.max_y,
                    west: params.dem_bbox.min_x,
                    east: params.dem_bbox.max_x,
                },
            },
            isce: IsceSection {
                range_looks: params.range_looks,
                azimuth_looks: params.azimuth_looks,
                connections: params.connections,
                virt: true,
            },
            processing: ProcessingSection {
                bounds: Bounds {
                    south: params.aoi_south,
                    north: params.aoi_north,
                    west: params.aoi_west,
                    east: params.aoi_east,
                },
            },
            mintpy: MintpySection { tropo: "height_correlation" },
        }
    }
}

// ---------------------------------------------------------------------------
// The job directory
// ---------------------------------------------------------------------------

/// Contents of `series/mintpy_params.cfg`. Paths are relative to `/job` as seen
/// inside the container.
pub const MINTPY_PARAMS: &'static str = "\
mintpy.load.processor        = isce\n\
mintpy.load.metaFile         = /job/reference/IW*.xml\n\
mintpy.load.baselineDir      = /job/baselines\n\
mintpy.load.unwFile          = /job/merged/interferograms/*/filt_*.unw\n\
mintpy.load.corFile          = /job/merged/interferograms/*/filt_*.cor\n\
mintpy.load.connCompFile     = /job/merged/interferograms/*/filt_*.unw.conncomp\n\
mintpy.load.demFile          = /job/merged/geom_reference/hgt.rdr\n\
mintpy.load.lookupYFile      = /job/merged/geom_reference/lat.rdr\n\
mintpy.load.lookupXFile      = /job/merged/geom_reference/lon.rdr\n\
mintpy.load.incAngleFile     = /job/merged/geom_reference/los.rdr\n\
mintpy.load.azAngleFile      = /job/merged/geom_reference/los.rdr\n\
mintpy.load.shadowMaskFile   = /job/merged/geom_reference/shadowMask.rdr\n\
mintpy.load.waterMaskFile    = /job/merged/geom_reference/waterMask.rdr\n\
mintpy.networkInversion.weightFunc   = var\n\
mintpy.networkInversion.maskDataset  = coherence\n\
mintpy.reference.lalo        = auto\n\
mintpy.subset.lalo           = auto\n\
mintpy.deramp                = linear\n\
mintpy.troposphericDelay.method      = pyaps\n\
mintpy.unwrapError.method    = auto\n\
mintpy.troposphericDelay.weatherDir  = /job/weather\n\
mintpy.networkInversion.maskThreshold = 0.3\n";

/// The subdirectories of a job directory.
pub open spec fn subdirectories() -> Seq<Seq<char>> {
    seq![
        "data"@,
        "dem"@,
        "orbits"@,
        "aux"@,
        "weather"@,
        "results"@,
        "burst_stitch"@,
        "series"@,
    ]
}

/// What has to be written into a job directory.
#[derive(Debug)]
pub struct JobFiles {
    /// Directories to create.
    pub directories: Vec<String>,
    /// Where the specification goes, as TOML.
    pub specification_path: String,
    pub specification: Specification,
    /// Where the burst list goes, as JSON.
    pub burst_list_path: String,
    /// Where the burst list of each date goes, as JSON.
    pub stitch_paths: Vec<String>,
    /// Where the MintPy parameters go.
    pub mintpy_path: String,
    pub mintpy_params: &'static str,
}

/// Where the burst list of a date goes.
pub open spec fn stitch_path(work_dir: Seq<char>, date: Seq<char>) -> Seq<char> {
    paths::joined_path(paths::joined_path(work_dir, "burst_stitch"@), date + ".json"@)
}

/// Lays out the job working directory: its subdirectories, `specification.toml`,
/// `burst_list.json`, the per-acquisition files under `burst_stitch/` and the
/// MintPy parameters.
///
/// ```text
/// {work_dir}/
/// ├── specification.toml
/// ├── burst_list.json
/// ├── burst_stitch/
/// │   ├── {YYYY-mm-dd}.json   (one file per acquisition date)
/// │   └── …
/// ├── data/
/// ├── dem/
/// ├── orbits/
/// ├── aux/
/// ├── weather/
/// └── results/
/// ```
pub fn write_job_files(
    work_dir: &str,
    params: &SpecificationParams,
    burst_stitch: &BurstStitchMap,
) -> (r: JobFiles)
    ensures
        text::texts(r.directories@) == subdirectories().map_values(
            |name: Seq<char>| paths::joined_path(work_dir@, name),
        ),
        r.specification_path@ == paths::joined_path(work_dir@, "specification.toml"@),
        r.specification.describes(*params),
        r.burst_list_path@ == paths::joined_path(work_dir@, "burst_list.json"@),
        r.stitch_paths.len() == burst_stitch.dates.len(),
        forall|i: int|
            0 <= i < r.stitch_paths.len() ==> (#[trigger] r.stitch_paths[i])@ == stitch_path(
                work_dir@,
                burst_stitch.dates[i].date@,
            ),
        r.mintpy_path@ == paths::joined_path(
            paths::joined_path(work_dir@, "series"@),
            "mintpy_params.cfg"@,
        ),
        r.mintpy_params@ == MINTPY_PARAMS@,
{
    let directories = vec![
        join(work_dir, "data"),
        join(work_dir, "dem"),
        join(work_dir, "orbits"),
        join(work_dir, "aux"),
        join(work_dir, "weather"),
        join(work_dir, "results"),
        join(work_dir, "burst_stitch"),
        join(work_dir, "series"),
    ];
    assert(text::texts(directories@) =~= subdirectories().map_values(
        |name: Seq<char>| paths::joined_path(work_dir@, name),
    ));
    let mut stitch_paths: Vec<String> = Vec::new();
    for i in 0..burst_stitch.dates.len()
        invariant
            stitch_paths.len() == i,
            forall|j: int|
                0 <= j < i ==> (#[trigger] stitch_paths[j])@ == stitch_path(
                    work_dir@,
                    burst_stitch.dates[j].date@,
                ),
    {
        let name = concat2(burst_stitch.dates[i].date.as_str(), ".json");
        stitch_paths.push(join2(work_dir, "burst_stitch", name.as_str()));
    }
    JobFiles {
        directories,
        specification_path: join(work_dir, "specification.toml"),
        specification: Specification::new(params),
        burst_list_path: join(work_dir, "burst_list.json"),
        stitch_paths,
        mintpy_path: join2(work_dir, "series", "mintpy_params.cfg"),
        mintpy_params: MINTPY_PARAMS,
    }
}

// ---------------------------------------------------------------------------
// Laws
// ---------------------------------------------------------------------------

/// The area that a job processes is the area that was asked for, side by side,
/// for every request whose bounds are accepted: it runs from south to north and
/// from west to east.
pub proof fn jobs_process_the_requested_area(
    spec: Specification,
    params: SpecificationParams,
    req: JobRequest,
)
    requires
        types::bounds_error(req.north@, req.south@, req.east@, req.west@) is None,
        params.aoi_north == req.north.value,
        params.aoi_south == req.south.value,
        params.aoi_east == req.east.value,
        params.aoi_west == req.west.value,
        spec.describes(params),
    ensures
        spec.processing.bounds.south == req.south.value,
        spec.processing.bounds.north == req.north.value,
        spec.processing.bounds.west == req.west.value,
        spec.processing.bounds.east == req.east.value,
        spec.processing.bounds.south.below(spec.processing.bounds.north),
        spec.processing.bounds.west.below(spec.processing.bounds.east),
{
}

/// The elevation model spans the rectangle of the bursts: latitudes bound it to
/// the south and north, longitudes to the west and east. So it runs from south to
/// north and from west to east wherever the rectangle has an inside.
pub proof fn elevation_models_span_the_bursts(spec: Specification, params: SpecificationParams)
    requires
        spec.describes(params),
    ensures
        spec.dem.bounds.south == params.dem_bbox.min_y,
        spec.dem.bounds.north == params.dem_bbox.max_y,
        spec.dem.bounds.west == params.dem_bbox.min_x,
        spec.dem.bounds.east == params.dem_bbox.max_x,
        params.dem_bbox.min_y.below(params.dem_bbox.max_y) ==> spec.dem.bounds.south.below(
            spec.dem.bounds.north,
        ),
        params.dem_bbox.min_x.below(params.dem_bbox.max_x) ==> spec.dem.bounds.west.below(
            spec.dem.bounds.east,
        ),
{
}

/// Each parameter of a job reaches its specification under its own name, and the
/// containers find what they exchange in the job directory.
pub proof fn specifications_keep_the_parameters(spec: Specification, params: SpecificationParams)
    requires
        spec.describes(params),
    ensures
        spec.isce.range_looks == params.range_looks,
        spec.isce.azimuth_looks == params.azimuth_looks,
        spec.isce.connections == params.connections,
        spec.isce.virt,
        spec.folders.home@ == "/job"@,
        spec.folders.data@ == "/job/data"@,
        spec.folders.orbits@ == "/job/orbits"@,
        spec.folders.dem@ == "/job/dem/full_res.dem.wgs84"@,
        spec.folders.aux@ == "/job/aux"@,
        spec.folders.weather@ == "/job/weather"@,
        spec.mintpy.tropo@ == "height_correlation"@,
{
}

/// A job directory has a place for everything that the specification points to,
/// for the results, for the lists of each date and for the series.
pub proof fn job_directories_are_complete()
    ensures
        subdirectories() == seq![
            "data"@,
            "dem"@,
            "orbits"@,
            "aux"@,
            "weather"@,
            "results"@,
            "burst_stitch"@,
            "series"@,
        ],
{
}

/// The lists of different dates go to different files.
pub proof fn stitch_paths_differ(work_dir: Seq<char>, a: Seq<char>, b: Seq<char>)
    requires
        a.len() > 0 && a[0] != '/',
        b.len() > 0 && b[0] != '/',
        stitch_path(work_dir, a) == stitch_path(work_dir, b),
    ensures
        a == b,
        stitch_path(work_dir, a) == paths::joined_path(
            paths::joined_path(work_dir, "burst_stitch"@),
            a + ".json"@,
        ),
{
    reveal_strlit(".json");
    let dir = paths::joined_path(work_dir, "burst_stitch"@);
    let x = stitch_path(work_dir, a);
    let y = stitch_path(work_dir, b);
    let n: int = if dir.len() == 0 || dir.last() == '/' {
        dir.len() as int
    } else {
        dir.len() + "/"@.len() as int
    };
    assert((a + ".json"@)[0] == a[0]);
    assert((b + ".json"@)[0] == b[0]);
    assert(x.skip(n) =~= a + ".json"@);
    assert(y.skip(n) =~= b + ".json"@);
    assert((a + ".json"@).take(a.len() as int) =~= a);
    assert((b + ".json"@).take(b.len() as int) =~= b);
}

/// The parameters of MintPy name each input under its own key.
#[verifier::rlimit(100)]
pub proof fn mintpy_params_name_their_inputs()
    ensures
        text::contains_text(MINTPY_PARAMS@, "mintpy.load.processor        = isce\n"@),
        text::contains_text(MINTPY_PARAMS@, "mintpy.load.metaFile         = /job/reference/IW*.xml\n"@),
        text::contains_text(MINTPY_PARAMS@, "mintpy.load.baselineDir      = /job/baselines\n"@),
        text::contains_text(MINTPY_PARAMS@, "mintpy.load.unwFile          = /job/merged/interferograms/*/filt_*.unw\n"@),
        text::contains_text(MINTPY_PARAMS@, "mintpy.load.corFile          = /job/merged/interferograms/*/filt_*.cor\n"@),
        text::contains_text(MINTPY_PARAMS@, "mintpy.load.connCompFile     = /job/merged/interferograms/*/filt_*.unw.conncomp\n"@),
        text::contains_text(MINTPY_PARAMS@, "mintpy.load.demFile          = /job/merged/geom_reference/hgt.rdr\n"@),
        text::contains_text(MINTPY_PARAMS@, "mintpy.load.lookupYFile      = /job/merged/geom_reference/lat.rdr\n"@),
        text::contains_text(MINTPY_PARAMS@, "mintpy.load.lookupXFile      = /job/merged/geom_reference/lon.rdr\n"@),
        text::contains_text(MINTPY_PARAMS@, "mintpy.load.incAngleFile     = /job/merged/geom_reference/los.rdr\n"@),
        text::contains_text(MINTPY_PARAMS@, "mintpy.load.azAngleFile      = /job/merged/geom_reference/los.rdr\n"@),
        text::contains_text(MINTPY_PARAMS@, "mintpy.load.shadowMaskFile   = /job/merged/geom_reference/shadowMask.rdr\n"@),
        text::contains_text(MINTPY_PARAMS@, "mintpy.load.waterMaskFile    = /job/merged/geom_reference/waterMask.rdr\n"@),
        text::contains_text(MINTPY_PARAMS@, "mintpy.networkInversion.weightFunc   = var\n"@),
        text::contains_text(MINTPY_PARAMS@, "mintpy.networkInversion.maskDataset  = coherence\n"@),
        text::contains_text(MINTPY_PARAMS@, "mintpy.reference.lalo        = auto\n"@),
        text::contains_text(MINTPY_PARAMS@, "mintpy.subset.lalo           = auto\n"@),
        text::contains_text(MINTPY_PARAMS@, "mintpy.deramp                = linear\n"@),
        text::contains_text(MINTPY_PARAMS@, "mintpy.troposphericDelay.method      = pyaps\n"@),
        text::contains_text(MINTPY_PARAMS@, "mintpy.unwrapError.method    = auto\n"@),
        text::contains_text(MINTPY_PARAMS@, "mintpy.troposphericDelay.weatherDir  = /job/weather\n"@),
        text::contains_text(MINTPY_PARAMS@, "mintpy.networkInversion.maskThreshold = 0.3\n"@),
{
    reveal_strlit("mintpy.load.processor        = isce\nmintpy.load.metaFile         = /job/reference/IW*.xml\nmintpy.load.baselineDir      = /job/baselines\nmintpy.load.unwFile          = /job/merged/interferograms/*/filt_*.unw\nmintpy.load.corFile          = /job/merged/interferograms/*/filt_*.cor\nmintpy.load.connCompFile     = /job/merged/interferograms/*/filt_*.unw.conncomp\nmintpy.load.demFile          = /job/merged/geom_reference/hgt.rdr\nmintpy.load.lookupYFile      = /job/merged/geom_reference/lat.rdr\nmintpy.load.lookupXFile      = /job/merged/geom_reference/lon.rdr\nmintpy.load.incAngleFile     = /job/merged/geom_reference/los.rdr\nmintpy.load.azAngleFile      = /job/merged/geom_reference/los.rdr\nmintpy.load.shadowMaskFile   = /job/merged/geom_reference/shadowMask.rdr\nmintpy.load.waterMaskFile    = /job/merged/geom_reference/waterMask.rdr\nmintpy.networkInversion.weightFunc   = var\nmintpy.networkInversion.maskDataset  = coherence\nmintpy.reference.lalo        = auto\nmintpy.subset.lalo           = auto\nmintpy.deramp                = linear\nmintpy.troposphericDelay.method      = pyaps\nmintpy.unwrapError.method    = auto\nmintpy.troposphericDelay.weatherDir  = /job/weather\nmintpy.networkInversion.maskThreshold = 0.3\n");
    let whole = MINTPY_PARAMS@;
    assert(whole.len() == 1212);
    assert(text::contains_text(whole, "mintpy.load.processor        = isce\n"@)) by {
        reveal_strlit("mintpy.load.processor        = isce\n");
        assert(whole.subrange(0, 36) =~= "mintpy.load.processor        = isce\n"@);
        assert(text::occurs_at(whole, "mintpy.load.processor        = isce\n"@, 0));
    }
    assert(text::contains_text(whole, "mintpy.load.metaFile         = /job/reference/IW*.xml\n"@)) by {
        reveal_strlit("mintpy.load.metaFile         = /job/reference/IW*.xml\n");
        assert(whole.subrange(36, 90) =~= "mintpy.load.metaFile         = /job/reference/IW*.xml\n"@);
        assert(text::occurs_at(whole, "mintpy.load.metaFile         = /job/reference/IW*.xml\n"@, 36));
    }
    assert(text::contains_text(whole, "mintpy.load.baselineDir      = /job/baselines\n"@)) by {
        reveal_strlit("mintpy.load.baselineDir      = /job/baselines\n");
        assert(whole.subrange(90, 136) =~= "mintpy.load.baselineDir      = /job/baselines\n"@);
        assert(text::occurs_at(whole, "mintpy.load.baselineDir      = /job/baselines\n"@, 90));
    }
    assert(text::contains_text(whole, "mintpy.load.unwFile          = /job/merged/interferograms/*/filt_*.unw\n"@)) by {
        reveal_strlit("mintpy.load.unwFile          = /job/merged/interferograms/*/filt_*.unw\n");
        assert(whole.subrange(136, 207) =~= "mintpy.load.unwFile          = /job/merged/interferograms/*/filt_*.unw\n"@);
        assert(text::occurs_at(whole, "mintpy.load.unwFile          = /job/merged/interferograms/*/filt_*.unw\n"@, 136));
    }
    assert(text::contains_text(whole, "mintpy.load.corFile          = /job/merged/interferograms/*/filt_*.cor\n"@)) by {
        reveal_strlit("mintpy.load.corFile          = /job/merged/interferograms/*/filt_*.cor\n");
        assert(whole.subrange(207, 278) =~= "mintpy.load.corFile          = /job/merged/interferograms/*/filt_*.cor\n"@);
        assert(text::occurs_at(whole, "mintpy.load.corFile          = /job/merged/interferograms/*/filt_*.cor\n"@, 207));
    }
    assert(text::contains_text(whole, "mintpy.load.connCompFile     = /job/merged/interferograms/*/filt_*.unw.conncomp\n"@)) by {
        reveal_strlit("mintpy.load.connCompFile     = /job/merged/interferograms/*/filt_*.unw.conncomp\n");
        assert(whole.subrange(278, 358) =~= "mintpy.load.connCompFile     = /job/merged/interferograms/*/filt_*.unw.conncomp\n"@);
        assert(text::occurs_at(whole, "mintpy.load.connCompFile     = /job/merged/interferograms/*/filt_*.unw.conncomp\n"@, 278));
    }
    assert(text::contains_text(whole, "mintpy.load.demFile          = /job/merged/geom_reference/hgt.rdr\n"@)) by {
        reveal_strlit("mintpy.load.demFile          = /job/merged/geom_reference/hgt.rdr\n");
        assert(whole.subrange(358, 424) =~= "mintpy.load.demFile          = /job/merged/geom_reference/hgt.rdr\n"@);
        assert(text::occurs_at(whole, "mintpy.load.demFile          = /job/merged/geom_reference/hgt.rdr\n"@, 358));
    }
    assert(text::contains_text(whole, "mintpy.load.lookupYFile      = /job/merged/geom_reference/lat.rdr\n"@)) by {
        reveal_strlit("mintpy.load.lookupYFile      = /job/merged/geom_reference/lat.rdr\n");
        assert(whole.subrange(424, 490) =~= "mintpy.load.lookupYFile      = /job/merged/geom_reference/lat.rdr\n"@);
        assert(text::occurs_at(whole, "mintpy.load.lookupYFile      = /job/merged/geom_reference/lat.rdr\n"@, 424));
    }
    assert(text::contains_text(whole, "mintpy.load.lookupXFile      = /job/merged/geom_reference/lon.rdr\n"@)) by {
        reveal_strlit("mintpy.load.lookupXFile      = /job/merged/geom_reference/lon.rdr\n");
        assert(whole.subrange(490, 556) =~= "mintpy.load.lookupXFile      = /job/merged/geom_reference/lon.rdr\n"@);
        assert(text::occurs_at(whole, "mintpy.load.lookupXFile      = /job/merged/geom_reference/lon.rdr\n"@, 490));
    }
    assert(text::contains_text(whole, "mintpy.load.incAngleFile     = /job/merged/geom_reference/los.rdr\n"@)) by {
        reveal_strlit("mintpy.load.incAngleFile     = /job/merged/geom_reference/los.rdr\n");
        assert(whole.subrange(556, 622) =~= "mintpy.load.incAngleFile     = /job/merged/geom_reference/los.rdr\n"@);
        assert(text::occurs_at(whole, "mintpy.load.incAngleFile     = /job/merged/geom_reference/los.rdr\n"@, 556));
    }
    assert(text::contains_text(whole, "mintpy.load.azAngleFile      = /job/merged/geom_reference/los.rdr\n"@)) by {
        reveal_strlit("mintpy.load.azAngleFile      = /job/merged/geom_reference/los.rdr\n");
        assert(whole.subrange(622, 688) =~= "mintpy.load.azAngleFile      = /job/merged/geom_reference/los.rdr\n"@);
        assert(text::occurs_at(whole, "mintpy.load.azAngleFile      = /job/merged/geom_reference/los.rdr\n"@, 622));
    }
    assert(text::contains_text(whole, "mintpy.load.shadowMaskFile   = /job/merged/geom_reference/shadowMask.rdr\n"@)) by {
        reveal_strlit("mintpy.load.shadowMaskFile   = /job/merged/geom_reference/shadowMask.rdr\n");
        assert(whole.subrange(688, 761) =~= "mintpy.load.shadowMaskFile   = /job/merged/geom_reference/shadowMask.rdr\n"@);
        assert(text::occurs_at(whole, "mintpy.load.shadowMaskFile   = /job/merged/geom_reference/shadowMask.rdr\n"@, 688));
    }
    assert(text::contains_text(whole, "mintpy.load.waterMaskFile    = /job/merged/geom_reference/waterMask.rdr\n"@)) by {
        reveal_strlit("mintpy.load.waterMaskFile    = /job/merged/geom_reference/waterMask.rdr\n");
        assert(whole.subrange(761, 833) =~= "mintpy.load.waterMaskFile    = /job/merged/geom_reference/waterMask.rdr\n"@);
        assert(text::occurs_at(whole, "mintpy.load.waterMaskFile    = /job/merged/geom_reference/waterMask.rdr\n"@, 761));
    }
    assert(text::contains_text(whole, "mintpy.networkInversion.weightFunc   = var\n"@)) by {
        reveal_strlit("mintpy.networkInversion.weightFunc   = var\n");
        assert(whole.subrange(833, 876) =~= "mintpy.networkInversion.weightFunc   = var\n"@);
        assert(text::occurs_at(whole, "mintpy.networkInversion.weightFunc   = var\n"@, 833));
    }
    assert(text::contains_text(whole, "mintpy.networkInversion.maskDataset  = coherence\n"@)) by {
        reveal_strlit("mintpy.networkInversion.maskDataset  = coherence\n");
        assert(whole.subrange(876, 925) =~= "mintpy.networkInversion.maskDataset  = coherence\n"@);
        assert(text::occurs_at(whole, "mintpy.networkInversion.maskDataset  = coherence\n"@, 876));
    }
    assert(text::contains_text(whole, "mintpy.reference.lalo        = auto\n"@)) by {
        reveal_strlit("mintpy.reference.lalo        = auto\n");
        assert(whole.subrange(925, 961) =~= "mintpy.reference.lalo        = auto\n"@);
        assert(text::occurs_at(whole, "mintpy.reference.lalo        = auto\n"@, 925));
    }
    assert(text::contains_text(whole, "mintpy.subset.lalo           = auto\n"@)) by {
        reveal_strlit("mintpy.subset.lalo           = auto\n");
        assert(whole.subrange(961, 997) =~= "mintpy.subset.lalo           = auto\n"@);
        assert(text::occurs_at(whole, "mintpy.subset.lalo           = auto\n"@, 961));
    }
    assert(text::contains_text(whole, "mintpy.deramp                = linear\n"@)) by {
        reveal_strlit("mintpy.deramp                = linear\n");
        assert(whole.subrange(997, 1035) =~= "mintpy.deramp                = linear\n"@);
        assert(text::occurs_at(whole, "mintpy.deramp                = linear\n"@, 997));
    }
    assert(text::contains_text(whole, "mintpy.troposphericDelay.method      = pyaps\n"@)) by {
        reveal_strlit("mintpy.troposphericDelay.method      = pyaps\n");
        assert(whole.subrange(1035, 1080) =~= "mintpy.troposphericDelay.method      = pyaps\n"@);
        assert(text::occurs_at(whole, "mintpy.troposphericDelay.method      = pyaps\n"@, 1035));
    }
    assert(text::contains_text(whole, "mintpy.unwrapError.method    = auto\n"@)) by {
        reveal_strlit("mintpy.unwrapError.method    = auto\n");
        assert(whole.subrange(1080, 1116) =~= "mintpy.unwrapError.method    = auto\n"@);
        assert(text::occurs_at(whole, "mintpy.unwrapError.method    = auto\n"@, 1080));
    }
    assert(text::contains_text(whole, "mintpy.troposphericDelay.weatherDir  = /job/weather\n"@)) by {
        reveal_strlit("mintpy.troposphericDelay.weatherDir  = /job/weather\n");
        assert(whole.subrange(1116, 1168) =~= "mintpy.troposphericDelay.weatherDir  = /job/weather\n"@);
        assert(text::occurs_at(whole, "mintpy.troposphericDelay.weatherDir  = /job/weather\n"@, 1116));
    }
    assert(text::contains_text(whole, "mintpy.networkInversion.maskThreshold = 0.3\n"@)) by {
        reveal_strlit("mintpy.networkInversion.maskThreshold = 0.3\n");
        assert(whole.subrange(1168, 1212) =~= "mintpy.networkInversion.maskThreshold = 0.3\n"@);
        assert(text::occurs_at(whole, "mintpy.networkInversion.maskThreshold = 0.3\n"@, 1168));
    }
}

} // verus!
