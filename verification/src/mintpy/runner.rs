//! The MintPy stage dispatcher: checks the name of a stage, prepares what the
//! first stage needs, and runs the step of smallbaselineApp.py.
use vstd::prelude::*;

use crate::command;
use crate::command::Invocation;
use crate::number;
use crate::number::decimal_i64;
use crate::text;
use crate::text::{concat3, concat4, join_texts, text_eq};

verus! {

/// The ISCE2 job directory if nothing else is said.
pub const DEFAULT_JOB_DIR: &'static str = "/job";

/// The MintPy output directory if nothing else is said.
pub const DEFAULT_RESULTS_DIR: &'static str = "/job/results";

/// How tropospheric delay is corrected if the job does not say.
pub const DEFAULT_TROPO: &'static str = "height_correlation";

/// The job directory, where `variable` is what JOB_DIR holds.
pub fn job_dir(variable: Option<String>) -> (r: String)
    ensures
        r@ == (match text::opt_text(variable) {
            Some(dir) => dir,
            None => "/job"@,
        }),
{
    match variable {
        Some(dir) => dir,
        None => DEFAULT_JOB_DIR.to_owned(),
    }
}

/// The output directory, where `variable` is what RESULTS_DIR holds.
pub fn results_dir(variable: Option<String>) -> (r: String)
    ensures
        r@ == (match text::opt_text(variable) {
            Some(dir) => dir,
            None => "/job/results"@,
        }),
{
    match variable {
        Some(dir) => dir,
        None => DEFAULT_RESULTS_DIR.to_owned(),
    }
}

// ---------------------------------------------------------------------------
// Valid MintPy stages (smallbaselineApp.py steps)
// ---------------------------------------------------------------------------

/// The steps of smallbaselineApp.py that can be run.
pub open spec fn stage_list() -> Seq<Seq<char>> {
    seq![
        "load_data"@,
        "modify_network"@,
        "reference_point"@,
        "quick_overview"@,
        "correct_unwrap_error"@,
        "invert_network"@,
        "correct_lod"@,
        "correct_troposphere"@,
        "correct_topography"@,
        "residual_rms"@,
        "deramp"@,
        "correct_timeseries"@,
        "geocode"@,
        "google_earth"@,
        "hdfeos5"@,
    ]
}

/// The steps of smallbaselineApp.py that can be run.
pub fn valid_stages() -> (r: Vec<String>)
    ensures
        text::texts(r@) == stage_list(),
{
    let all: Vec<String> = vec![
        "load_data".to_owned(),
        "modify_network".to_owned(),
        "reference_point".to_owned(),
        "quick_overview".to_owned(),
        "correct_unwrap_error".to_owned(),
        "invert_network".to_owned(),
        "correct_lod".to_owned(),
        "correct_troposphere".to_owned(),
        "correct_topography".to_owned(),
        "residual_rms".to_owned(),
        "deramp".to_owned(),
        "correct_timeseries".to_owned(),
        "geocode".to_owned(),
        "google_earth".to_owned(),
        "hdfeos5".to_owned(),
    ];
    assert(text::texts(all@) =~= stage_list());
    all
}

fn is_valid(stage: &str) -> (r: bool)
    ensures
        r == stage_list().contains(stage@),
{
    let all = valid_stages();
    for i in 0..all.len()
        invariant
            text::texts(all@) == stage_list(),
            forall|j: int| 0 <= j < i ==> (#[trigger] stage_list()[j]) != stage@,
    {
        assert(text::texts(all@)[i as int] == all[i as int]@);
        if text_eq(all[i].as_str(), stage) {
            return true;
        }
    }
    assert(text::texts(all@).len() == all.len());
    false
}

/// What a stage takes.
#[derive(Debug, Clone, Copy, PartialEq, Eq, Structural)]
pub enum Task {
    /// `data.rsc` and the configuration are written, and the step is run.
    LoadData,
    /// The step is run.
    Step,
}

/// Decides what a stage takes. A name that is no stage is refused.
pub fn dispatch(stage: &str) -> (r: Result<Task, String>)
    ensures
        match r {
            Ok(task) => {
                &&& stage_list().contains(stage@)
                &&& task == (if stage@ == "load_data"@ {
                    Task::LoadData
                } else {
                    Task::Step
                })
            },
            Err(message) => {
                &&& !stage_list().contains(stage@)
                &&& message@ == "Unknown stage '"@ + stage@ + "'. Valid stages: "@ + text::joined(
                    stage_list(),
                    ", "@,
                )
            },
        },
{
    if !is_valid(stage) {
        return Err(
            concat4(
                "Unknown stage '",
                stage,
                "'. Valid stages: ",
                join_texts(&valid_stages(), ", ").as_str(),
            ),
        );
    }
    if text_eq(stage, "load_data") {
        Ok(Task::LoadData)
    } else {
        Ok(Task::Step)
    }
}

/// The stage that the command line names. Without one, or where help is asked
/// for, there is none.
pub fn chosen_stage(args: &Vec<String>) -> (r: Option<String>)
    ensures
        text::opt_text(r) == (if args.len() < 2 || args[1]@ == "--help"@ || args[1]@ == "-h"@ {
            None
        } else {
            Some(args[1]@)
        }),
{
    if args.len() < 2 || text_eq(args[1].as_str(), "--help") || text_eq(args[1].as_str(), "-h") {
        None
    } else {
        Some(args[1].clone())
    }
}

/// The lines of the help text.
pub open spec fn help_lines() -> Seq<Seq<char>> {
    seq![
        "mintpy-runner <stage_name>"@,
        ""@,
        "Valid stages:"@,
        "  load_data"@,
        "  modify_network"@,
        "  reference_point"@,
        "  quick_overview"@,
        "  correct_unwrap_error"@,
        "  invert_network"@,
        "  correct_lod"@,
        "  correct_troposphere"@,
        "  correct_topography"@,
        "  residual_rms"@,
        "  deramp"@,
        "  correct_timeseries"@,
        "  geocode"@,
        "  google_earth"@,
        "  hdfeos5"@,
        ""@,
        "Environment variables:"@,
        "  JOB_DIR      ISCE2 job directory  (default: /job)"@,
        "  RESULTS_DIR  MintPy output dir    (default: /job/results)"@,
    ]
}

/// The lines of the help text.
pub fn print_help() -> (r: Vec<String>)
    ensures
        text::texts(r@) == help_lines(),
{
    let all: Vec<String> = vec![
        "mintpy-runner <stage_name>".to_owned(),
        "".to_owned(),
        "Valid stages:".to_owned(),
        "  load_data".to_owned(),
        "  modify_network".to_owned(),
        "  reference_point".to_owned(),
        "  quick_overview".to_owned(),
        "  correct_unwrap_error".to_owned(),
        "  invert_network".to_owned(),
        "  correct_lod".to_owned(),
        "  correct_troposphere".to_owned(),
        "  correct_topography".to_owned(),
        "  residual_rms".to_owned(),
        "  deramp".to_owned(),
        "  correct_timeseries".to_owned(),
        "  geocode".to_owned(),
        "  google_earth".to_owned(),
        "  hdfeos5".to_owned(),
        "".to_owned(),
        "Environment variables:".to_owned(),
        "  JOB_DIR      ISCE2 job directory  (default: /job)".to_owned(),
        "  RESULTS_DIR  MintPy output dir    (default: /job/results)".to_owned(),
    ];
    assert(text::texts(all@) =~= help_lines());
    all
}

// ---------------------------------------------------------------------------
// Stage execution
// ---------------------------------------------------------------------------

/// The command of a step.
pub open spec fn stage_model(stage: Seq<char>, results_dir: Seq<char>) -> command::InvocationModel {
    command::InvocationModel {
        program: "smallbaselineApp.py"@,
        args: seq!["--dir"@, results_dir, "--dostep"@, stage],
    }
}

/// The command that runs a single smallbaselineApp.py step, outputting results to
/// `results_dir`.
pub fn run_stage(stage: &str, results_dir: &str) -> (r: Invocation)
    ensures
        r@ == stage_model(stage@, results_dir@),
{
    let r = Invocation {
        program: "smallbaselineApp.py".to_owned(),
        args: vec![
            "--dir".to_owned(),
            results_dir.to_owned(),
            "--dostep".to_owned(),
            stage.to_owned(),
        ],
    };
    assert(r@ =~= stage_model(stage@, results_dir@));
    r
}

/// How an exit code is shown.
pub open spec fn shown_code(code: Option<i32>) -> Seq<char> {
    match code {
        Some(code) => "Some("@ + number::decimal(code as int) + ")"@,
        None => "None"@,
    }
}

/// What is made of the end of a step, where `code` is the exit code, if there is
/// one.
pub fn stage_outcome(stage: &str, code: Option<i32>) -> (r: Result<(), String>)
    ensures
        match r {
            Ok(()) => code == Some(0i32),
            Err(message) => code != Some(0i32) && message@ == "smallbaselineApp.py --dostep "@
                + stage@ + " exited with code "@ + shown_code(code),
        },
{
    let shown = match code {
        Some(0) => {
            return Ok(());
        },
        Some(code) => concat3("Some(", decimal_i64(code as i64).as_str(), ")"),
        None => "None".to_owned(),
    };
    Err(
        concat4(
            "smallbaselineApp.py --dostep ",
            stage,
            " exited with code ",
            shown.as_str(),
        ),
    )
}

/// The configuration of smallbaselineApp.py.
pub open spec fn config_text(job: Seq<char>, tropo: Seq<char>) -> Seq<char> {
    "## Auto-generated by mintpy-runner — do not edit manually.\n## Re-generated on each load_data invocation if absent.\n\nmintpy.load.processor        = isce\nmintpy.load.unwFile          = "@
        + job
        + "/merged/interferograms/*/filt_*.unw\nmintpy.load.corFile          = "@
        + job
        + "/merged/interferograms/*/filt_*.cor\nmintpy.load.connCompFile     = "@
        + job
        + "/merged/interferograms/*/filt_*.unw.conncomp\nmintpy.load.intFile          = None\nmintpy.load.demFile          = "@
        + job
        + "/merged/geom_reference/hgt.rdr\nmintpy.load.lookupYFile      = "@
        + job
        + "/merged/geom_reference/lat.rdr\nmintpy.load.lookupXFile      = "@
        + job
        + "/merged/geom_reference/lon.rdr\nmintpy.load.incAngleFile     = "@
        + job
        + "/merged/geom_reference/incLocal.rdr\nmintpy.load.azAngleFile      = "@
        + job
        + "/merged/geom_reference/azLocal.rdr\nmintpy.load.shadowMaskFile   = "@
        + job
        + "/merged/geom_reference/shadowMask.rdr\n\nmintpy.troposphericDelay.method = "@
        + tropo
        + "\n\nmintpy.save.hdfEos5          = yes\nmintpy.save.hdfEos5.update   = yes\n"@
}

/// Generates smallbaselineApp.cfg for a job directory, where `exists` says
/// whether there is one already: that one is kept (idempotent re-runs). `tropo`
/// is the correction method that the job's specification names.
pub fn run_load_data(exists: bool, job: &str, tropo: Option<String>) -> (r: Option<String>)
    ensures
        text::opt_text(r) == (if exists {
            None
        } else {
            Some(
                config_text(
                    job@,
                    match text::opt_text(tropo) {
                        Some(method) => method,
                        None => "height_correlation"@,
                    },
                ),
            )
        }),
{
    if exists {
        return None;
    }
    let method = match tropo {
        Some(method) => method,
        None => DEFAULT_TROPO.to_owned(),
    };
    let tropo = method.as_str();
    let mut out = String::new();
    out.append("## Auto-generated by mintpy-runner — do not edit manually.\n## Re-generated on each load_data invocation if absent.\n\nmintpy.load.processor        = isce\nmintpy.load.unwFile          = ");
    out.append(job);
    out.append("/merged/interferograms/*/filt_*.unw\nmintpy.load.corFile          = ");
    out.append(job);
    out.append("/merged/interferograms/*/filt_*.cor\nmintpy.load.connCompFile     = ");
    out.append(job);
    out.append("/merged/interferograms/*/filt_*.unw.conncomp\nmintpy.load.intFile          = None\nmintpy.load.demFile          = ");
    out.append(job);
    out.append("/merged/geom_reference/hgt.rdr\nmintpy.load.lookupYFile      = ");
    out.append(job);
    out.append("/merged/geom_reference/lat.rdr\nmintpy.load.lookupXFile      = ");
    out.append(job);
    out.append("/merged/geom_reference/lon.rdr\nmintpy.load.incAngleFile     = ");
    out.append(job);
    out.append("/merged/geom_reference/incLocal.rdr\nmintpy.load.azAngleFile      = ");
    out.append(job);
    out.append("/merged/geom_reference/azLocal.rdr\nmintpy.load.shadowMaskFile   = ");
    out.append(job);
    out.append("/merged/geom_reference/shadowMask.rdr\n\nmintpy.troposphericDelay.method = ");
    out.append(tropo);
    out.append("\n\nmintpy.save.hdfEos5          = yes\nmintpy.save.hdfEos5.update   = yes\n");
    assert(out@ =~= config_text(job@, tropo@));
    Some(out)
}

/// Different stages are run by different commands.
pub proof fn stages_run_themselves(stage: Seq<char>, other: Seq<char>, results_dir: Seq<char>)
    ensures
        stage_model(stage, results_dir) == stage_model(other, results_dir) ==> stage == other,
{
    assert(stage_model(stage, results_dir).args[3] == stage);
    assert(stage_model(other, results_dir).args[3] == other);
}

/// Every input of MintPy is looked for in the job directory under its own key: the
/// unwrapped phases, coherences and components of the interferograms, and the
/// heights, latitudes, longitudes, angles and shadows of the geometry. Latitudes
/// are the lookup table of the rows, longitudes that of the columns. The correction
/// is the method that is named.
#[verifier::rlimit(100)]
pub proof fn inputs_stand_under_their_keys(job: Seq<char>, tropo: Seq<char>)
    ensures
        ({
            let config = config_text(job, tropo);
            &&& text::contains_text(config, "\nmintpy.load.unwFile          = "@ + job + "/merged/interferograms/*/filt_*.unw\n"@)
            &&& text::contains_text(config, "\nmintpy.load.corFile          = "@ + job + "/merged/interferograms/*/filt_*.cor\n"@)
            &&& text::contains_text(config, "\nmintpy.load.connCompFile     = "@ + job + "/merged/interferograms/*/filt_*.unw.conncomp\n"@)
            &&& text::contains_text(config, "\nmintpy.load.demFile          = "@ + job + "/merged/geom_reference/hgt.rdr\n"@)
            &&& text::contains_text(config, "\nmintpy.load.lookupYFile      = "@ + job + "/merged/geom_reference/lat.rdr\n"@)
            &&& text::contains_text(config, "\nmintpy.load.lookupXFile      = "@ + job + "/merged/geom_reference/lon.rdr\n"@)
            &&& text::contains_text(config, "\nmintpy.load.incAngleFile     = "@ + job + "/merged/geom_reference/incLocal.rdr\n"@)
            &&& text::contains_text(config, "\nmintpy.load.azAngleFile      = "@ + job + "/merged/geom_reference/azLocal.rdr\n"@)
            &&& text::contains_text(config, "\nmintpy.load.shadowMaskFile   = "@ + job + "/merged/geom_reference/shadowMask.rdr\n"@)
            &&& text::contains_text(config, "\nmintpy.troposphericDelay.method = "@ + tropo + "\n"@)
        }),
{
    let p0 = "## Auto-generated by mintpy-runner — do not edit manually.\n## Re-generated on each load_data invocation if absent.\n\nmintpy.load.processor        = isce\nmintpy.load.unwFile          = "@;
    let p1 = "/merged/interferograms/*/filt_*.unw\nmintpy.load.corFile          = "@;
    let p2 = "/merged/interferograms/*/filt_*.cor\nmintpy.load.connCompFile     = "@;
    let p3 = "/merged/interferograms/*/filt_*.unw.conncomp\nmintpy.load.intFile          = None\nmintpy.load.demFile          = "@;
    let p4 = "/merged/geom_reference/hgt.rdr\nmintpy.load.lookupYFile      = "@;
    let p5 = "/merged/geom_reference/lat.rdr\nmintpy.load.lookupXFile      = "@;
    let p6 = "/merged/geom_reference/lon.rdr\nmintpy.load.incAngleFile     = "@;
    let p7 = "/merged/geom_reference/incLocal.rdr\nmintpy.load.azAngleFile      = "@;
    let p8 = "/merged/geom_reference/azLocal.rdr\nmintpy.load.shadowMaskFile   = "@;
    let p9 = "/merged/geom_reference/shadowMask.rdr\n\nmintpy.troposphericDelay.method = "@;
    let p10 = "\n\nmintpy.save.hdfEos5          = yes\nmintpy.save.hdfEos5.update   = yes\n"@;
    let config = config_text(job, tropo);
    assert(text::contains_text(config, "\nmintpy.load.unwFile          = "@ + job + "/merged/interferograms/*/filt_*.unw\n"@)) by {
        reveal_strlit("## Auto-generated by mintpy-runner — do not edit manually.\n## Re-generated on each load_data invocation if absent.\n\nmintpy.load.processor        = isce\nmintpy.load.unwFile          = ");
        reveal_strlit("/merged/interferograms/*/filt_*.unw\nmintpy.load.corFile          = ");
        reveal_strlit("\nmintpy.load.unwFile          = ");
        reveal_strlit("/merged/interferograms/*/filt_*.unw\n");
        assert(p0.skip(151) =~= "\nmintpy.load.unwFile          = "@);
        assert(p1.take(36) =~= "/merged/interferograms/*/filt_*.unw\n"@);
        let head = p0;
        let tail = p1 + job + p2 + job + p3 + job + p4 + job + p5 + job + p6 + job + p7 + job + p8 + job + p9 + tropo + p10;
        assert(config =~= head + job + tail);
        assert(head.skip(head.len() - "\nmintpy.load.unwFile          = "@.len()) =~= "\nmintpy.load.unwFile          = "@);
        assert(tail.take("/merged/interferograms/*/filt_*.unw\n"@.len() as int) =~= "/merged/interferograms/*/filt_*.unw\n"@);
        lemma_line(config, head, job, tail, "\nmintpy.load.unwFile          = "@, "/merged/interferograms/*/filt_*.unw\n"@);
    }
    assert(text::contains_text(config, "\nmintpy.load.corFile          = "@ + job + "/merged/interferograms/*/filt_*.cor\n"@)) by {
        reveal_strlit("/merged/interferograms/*/filt_*.unw\nmintpy.load.corFile          = ");
        reveal_strlit("/merged/interferograms/*/filt_*.cor\nmintpy.load.connCompFile     = ");
        reveal_strlit("\nmintpy.load.corFile          = ");
        reveal_strlit("/merged/interferograms/*/filt_*.cor\n");
        assert(p1.skip(35) =~= "\nmintpy.load.corFile          = "@);
        assert(p2.take(36) =~= "/merged/interferograms/*/filt_*.cor\n"@);
        let head = p0 + job + p1;
        let tail = p2 + job + p3 + job + p4 + job + p5 + job + p6 + job + p7 + job + p8 + job + p9 + tropo + p10;
        assert(config =~= head + job + tail);
        assert(head.skip(head.len() - "\nmintpy.load.corFile          = "@.len()) =~= "\nmintpy.load.corFile          = "@);
        assert(tail.take("/merged/interferograms/*/filt_*.cor\n"@.len() as int) =~= "/merged/interferograms/*/filt_*.cor\n"@);
        lemma_line(config, head, job, tail, "\nmintpy.load.corFile          = "@, "/merged/interferograms/*/filt_*.cor\n"@);
    }
    assert(text::contains_text(config, "\nmintpy.load.connCompFile     = "@ + job + "/merged/interferograms/*/filt_*.unw.conncomp\n"@)) by {
        reveal_strlit("/merged/interferograms/*/filt_*.cor\nmintpy.load.connCompFile     = ");
        reveal_strlit("/merged/interferograms/*/filt_*.unw.conncomp\nmintpy.load.intFile          = None\nmintpy.load.demFile          = ");
        reveal_strlit("\nmintpy.load.connCompFile     = ");
        reveal_strlit("/merged/interferograms/*/filt_*.unw.conncomp\n");
        assert(p2.skip(35) =~= "\nmintpy.load.connCompFile     = "@);
        assert(p3.take(45) =~= "/merged/interferograms/*/filt_*.unw.conncomp\n"@);
        let head = p0 + job + p1 + job + p2;
        let tail = p3 + job + p4 + job + p5 + job + p6 + job + p7 + job + p8 + job + p9 + tropo + p10;
        assert(config =~= head + job + tail);
        assert(head.skip(head.len() - "\nmintpy.load.connCompFile     = "@.len()) =~= "\nmintpy.load.connCompFile     = "@);
        assert(tail.take("/merged/interferograms/*/filt_*.unw.conncomp\n"@.len() as int) =~= "/merged/interferograms/*/filt_*.unw.conncomp\n"@);
        lemma_line(config, head, job, tail, "\nmintpy.load.connCompFile     = "@, "/merged/interferograms/*/filt_*.unw.conncomp\n"@);
    }
    assert(text::contains_text(config, "\nmintpy.load.demFile          = "@ + job + "/merged/geom_reference/hgt.rdr\n"@)) by {
        reveal_strlit("/merged/interferograms/*/filt_*.unw.conncomp\nmintpy.load.intFile          = None\nmintpy.load.demFile          = ");
        reveal_strlit("/merged/geom_reference/hgt.rdr\nmintpy.load.lookupYFile      = ");
        reveal_strlit("\nmintpy.load.demFile          = ");
        reveal_strlit("/merged/geom_reference/hgt.rdr\n");
        assert(p3.skip(80) =~= "\nmintpy.load.demFile          = "@);
        assert(p4.take(31) =~= "/merged/geom_reference/hgt.rdr\n"@);
        let head = p0 + job + p1 + job + p2 + job + p3;
        let tail = p4 + job + p5 + job + p6 + job + p7 + job + p8 + job + p9 + tropo + p10;
        assert(config =~= head + job + tail);
        assert(head.skip(head.len() - "\nmintpy.load.demFile          = "@.len()) =~= "\nmintpy.load.demFile          = "@);
        assert(tail.take("/merged/geom_reference/hgt.rdr\n"@.len() as int) =~= "/merged/geom_reference/hgt.rdr\n"@);
        lemma_line(config, head, job, tail, "\nmintpy.load.demFile          = "@, "/merged/geom_reference/hgt.rdr\n"@);
    }
    assert(text::contains_text(config, "\nmintpy.load.lookupYFile      = "@ + job + "/merged/geom_reference/lat.rdr\n"@)) by {
        reveal_strlit("/merged/geom_reference/hgt.rdr\nmintpy.load.lookupYFile      = ");
        reveal_strlit("/merged/geom_reference/lat.rdr\nmintpy.load.lookupXFile      = ");
        reveal_strlit("\nmintpy.load.lookupYFile      = ");
        reveal_strlit("/merged/geom_reference/lat.rdr\n");
        assert(p4.skip(30) =~= "\nmintpy.load.lookupYFile      = "@);
        assert(p5.take(31) =~= "/merged/geom_reference/lat.rdr\n"@);
        let head = p0 + job + p1 + job + p2 + job + p3 + job + p4;
        let tail = p5 + job + p6 + job + p7 + job + p8 + job + p9 + tropo + p10;
        assert(config =~= head + job + tail);
        assert(head.skip(head.len() - "\nmintpy.load.lookupYFile      = "@.len()) =~= "\nmintpy.load.lookupYFile      = "@);
        assert(tail.take("/merged/geom_reference/lat.rdr\n"@.len() as int) =~= "/merged/geom_reference/lat.rdr\n"@);
        lemma_line(config, head, job, tail, "\nmintpy.load.lookupYFile      = "@, "/merged/geom_reference/lat.rdr\n"@);
    }
    assert(text::contains_text(config, "\nmintpy.load.lookupXFile      = "@ + job + "/merged/geom_reference/lon.rdr\n"@)) by {
        reveal_strlit("/merged/geom_reference/lat.rdr\nmintpy.load.lookupXFile      = ");
        reveal_strlit("/merged/geom_reference/lon.rdr\nmintpy.load.incAngleFile     = ");
        reveal_strlit("\nmintpy.load.lookupXFile      = ");
        reveal_strlit("/merged/geom_reference/lon.rdr\n");
        assert(p5.skip(30) =~= "\nmintpy.load.lookupXFile      = "@);
        assert(p6.take(31) =~= "/merged/geom_reference/lon.rdr\n"@);
        let head = p0 + job + p1 + job + p2 + job + p3 + job + p4 + job + p5;
        let tail = p6 + job + p7 + job + p8 + job + p9 + tropo + p10;
        assert(config =~= head + job + tail);
        assert(head.skip(head.len() - "\nmintpy.load.lookupXFile      = "@.len()) =~= "\nmintpy.load.lookupXFile      = "@);
        assert(tail.take("/merged/geom_reference/lon.rdr\n"@.len() as int) =~= "/merged/geom_reference/lon.rdr\n"@);
        lemma_line(config, head, job, tail, "\nmintpy.load.lookupXFile      = "@, "/merged/geom_reference/lon.rdr\n"@);
    }
    assert(text::contains_text(config, "\nmintpy.load.incAngleFile     = "@ + job + "/merged/geom_reference/incLocal.rdr\n"@)) by {
        reveal_strlit("/merged/geom_reference/lon.rdr\nmintpy.load.incAngleFile     = ");
        reveal_strlit("/merged/geom_reference/incLocal.rdr\nmintpy.load.azAngleFile      = ");
        reveal_strlit("\nmintpy.load.incAngleFile     = ");
        reveal_strlit("/merged/geom_reference/incLocal.rdr\n");
        assert(p6.skip(30) =~= "\nmintpy.load.incAngleFile     = "@);
        assert(p7.take(36) =~= "/merged/geom_reference/incLocal.rdr\n"@);
        let head = p0 + job + p1 + job + p2 + job + p3 + job + p4 + job + p5 + job + p6;
        let tail = p7 + job + p8 + job + p9 + tropo + p10;
        assert(config =~= head + job + tail);
        assert(head.skip(head.len() - "\nmintpy.load.incAngleFile     = "@.len()) =~= "\nmintpy.load.incAngleFile     = "@);
        assert(tail.take("/merged/geom_reference/incLocal.rdr\n"@.len() as int) =~= "/merged/geom_reference/incLocal.rdr\n"@);
        lemma_line(config, head, job, tail, "\nmintpy.load.incAngleFile     = "@, "/merged/geom_reference/incLocal.rdr\n"@);
    }
    assert(text::contains_text(config, "\nmintpy.load.azAngleFile      = "@ + job + "/merged/geom_reference/azLocal.rdr\n"@)) by {
        reveal_strlit("/merged/geom_reference/incLocal.rdr\nmintpy.load.azAngleFile      = ");
        reveal_strlit("/merged/geom_reference/azLocal.rdr\nmintpy.load.shadowMaskFile   = ");
        reveal_strlit("\nmintpy.load.azAngleFile      = ");
        reveal_strlit("/merged/geom_reference/azLocal.rdr\n");
        assert(p7.skip(35) =~= "\nmintpy.load.azAngleFile      = "@);
        assert(p8.take(35) =~= "/merged/geom_reference/azLocal.rdr\n"@);
        let head = p0 + job + p1 + job + p2 + job + p3 + job + p4 + job + p5 + job + p6 + job + p7;
        let tail = p8 + job + p9 + tropo + p10;
        assert(config =~= head + job + tail);
        assert(head.skip(head.len() - "\nmintpy.load.azAngleFile      = "@.len()) =~= "\nmintpy.load.azAngleFile      = "@);
        assert(tail.take("/merged/geom_reference/azLocal.rdr\n"@.len() as int) =~= "/merged/geom_reference/azLocal.rdr\n"@);
        lemma_line(config, head, job, tail, "\nmintpy.load.azAngleFile      = "@, "/merged/geom_reference/azLocal.rdr\n"@);
    }
    assert(text::contains_text(config, "\nmintpy.load.shadowMaskFile   = "@ + job + "/merged/geom_reference/shadowMask.rdr\n"@)) by {
        reveal_strlit("/merged/geom_reference/azLocal.rdr\nmintpy.load.shadowMaskFile   = ");
        reveal_strlit("/merged/geom_reference/shadowMask.rdr\n\nmintpy.troposphericDelay.method = ");
        reveal_strlit("\nmintpy.load.shadowMaskFile   = ");
        reveal_strlit("/merged/geom_reference/shadowMask.rdr\n");
        assert(p8.skip(34) =~= "\nmintpy.load.shadowMaskFile   = "@);
        assert(p9.take(38) =~= "/merged/geom_reference/shadowMask.rdr\n"@);
        let head = p0 + job + p1 + job + p2 + job + p3 + job + p4 + job + p5 + job + p6 + job + p7 + job + p8;
        let tail = p9 + tropo + p10;
        assert(config =~= head + job + tail);
        assert(head.skip(head.len() - "\nmintpy.load.shadowMaskFile   = "@.len()) =~= "\nmintpy.load.shadowMaskFile   = "@);
        assert(tail.take("/merged/geom_reference/shadowMask.rdr\n"@.len() as int) =~= "/merged/geom_reference/shadowMask.rdr\n"@);
        lemma_line(config, head, job, tail, "\nmintpy.load.shadowMaskFile   = "@, "/merged/geom_reference/shadowMask.rdr\n"@);
    }
    assert(text::contains_text(config, "\nmintpy.troposphericDelay.method = "@ + tropo + "\n"@)) by {
        reveal_strlit("/merged/geom_reference/shadowMask.rdr\n\nmintpy.troposphericDelay.method = ");
        reveal_strlit("\n\nmintpy.save.hdfEos5          = yes\nmintpy.save.hdfEos5.update   = yes\n");
        reveal_strlit("\nmintpy.troposphericDelay.method = ");
        reveal_strlit("\n");
        assert(p9.skip(38) =~= "\nmintpy.troposphericDelay.method = "@);
        assert(p10.take(1) =~= "\n"@);
        let head = p0 + job + p1 + job + p2 + job + p3 + job + p4 + job + p5 + job + p6 + job + p7 + job + p8 + job + p9;
        let tail = p10;
        assert(config =~= head + tropo + tail);
        assert(head.skip(head.len() - "\nmintpy.troposphericDelay.method = "@.len()) =~= "\nmintpy.troposphericDelay.method = "@);
        assert(tail.take("\n"@.len() as int) =~= "\n"@);
        lemma_line(config, head, tropo, tail, "\nmintpy.troposphericDelay.method = "@, "\n"@);
    }
}

proof fn lemma_line(
    whole: Seq<char>,
    head: Seq<char>,
    middle: Seq<char>,
    tail: Seq<char>,
    key: Seq<char>,
    path: Seq<char>,
)
    requires
        whole == head + middle + tail,
        key.len() <= head.len(),
        head.skip(head.len() - key.len()) == key,
        path.len() <= tail.len(),
        tail.take(path.len() as int) == path,
    ensures
        text::contains_text(whole, key + middle + path),
{
    let i = head.len() - key.len();
    let needle = key + middle + path;
    assert forall|j: int| 0 <= j < needle.len() implies #[trigger] whole[i + j] == needle[j] by {
        if j < key.len() {
            assert(head.skip(i)[j] == key[j]);
        } else if j >= key.len() + middle.len() {
            let m = j - key.len() - middle.len();
            assert(tail.take(path.len() as int)[m] == path[m]);
        }
    }
    assert(whole.subrange(i, i + needle.len()) =~= needle);
    assert(text::occurs_at(whole, needle, i));
}

} // verus!
