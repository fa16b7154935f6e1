//! The results container: output artifacts from MintPy data.
//!
//! All heavy lifting is delegated to MintPy's command-line tools (`view.py`,
//! `tsview.py`). For a time series, `tsview.py` generates a PDF, which is then
//! converted to PNG by `pdftocairo`, and the intermediate PDF is removed.
use vstd::prelude::*;

use crate::command;
use crate::command::Invocation;
use crate::number;
use crate::number::decimal_i64;
use crate::paths;
use crate::paths::{join, join2, parent};
use crate::shared::result;
use crate::text;
use crate::text::{chars_of, concat2, concat4, ends_with, string_of};

verus! {

/// What the container can be asked for.
#[derive(Debug, Clone, Copy, PartialEq, Eq, Structural)]
pub enum Artifact {
    Velocity,
    Timeseries,
    AiSummary,
    Dem,
    Model3d,
}

/// Whether an artifact can be made: some cannot yet.
pub fn check_artifact(artifact: Artifact) -> (r: Result<(), String>)
    ensures
        match r {
            Ok(()) => artifact == Artifact::Velocity || artifact == Artifact::Timeseries,
            Err(message) => artifact != Artifact::Velocity && artifact != Artifact::Timeseries
                && message@ == "this result type is not yet implemented"@,
        },
{
    match artifact {
        Artifact::Velocity => Ok(()),
        Artifact::Timeseries => Ok(()),
        _ => Err("this result type is not yet implemented".to_owned()),
    }
}

/// Why an artifact was not made: a message and, where a step failed, what that
/// step was.
#[derive(Debug)]
pub struct Failure {
    pub context: Option<String>,
    pub message: String,
}

/// What a `Failure` says.
pub struct FailureModel {
    pub context: Option<Seq<char>>,
    pub message: Seq<char>,
}

impl View for Failure {
    type V = FailureModel;

    open spec fn view(&self) -> FailureModel {
        FailureModel { context: text::opt_text(self.context), message: self.message@ }
    }
}

/// What is said of a file that is not there.
pub open spec fn missing(path: Seq<char>) -> Seq<char> {
    "required file not found: "@ + path
}

/// Ensures that a required file exists, returning a clear error if not.
pub fn require_file(path: &str, exists: bool) -> (r: Result<(), String>)
    ensures
        match r {
            Ok(()) => exists,
            Err(message) => !exists && message@ == missing(path@),
        },
{
    if exists {
        Ok(())
    } else {
        Err(concat2("required file not found: ", path))
    }
}

/// What is said of a program that did not succeed.
pub open spec fn failed_run(program: Seq<char>, code: Option<i32>) -> Seq<char> {
    "'"@ + program + "' exited with status "@ + number::decimal(
        match code {
            Some(code) => code as int,
            None => -1,
        },
    )
}

/// What is made of the end of a program, where `code` is its exit code, if it
/// has one.
pub fn run_command(program: &str, code: Option<i32>) -> (r: Result<(), String>)
    ensures
        match r {
            Ok(()) => code == Some(0i32),
            Err(message) => code != Some(0i32) && message@ == failed_run(program@, code),
        },
{
    let status: i32 = match code {
        Some(code) => code,
        None => -1,
    };
    if status == 0 {
        Ok(())
    } else {
        Err(
            concat4("'", program, "' exited with status ", decimal_i64(status as i64).as_str()),
        )
    }
}

// ---------------------------------------------------------------------------
// velocity
// ---------------------------------------------------------------------------

/// The path of a file of the geocoded series.
pub open spec fn series_file(job_dir: Seq<char>, name: Seq<char>) -> Seq<char> {
    paths::joined_path(paths::joined_path(paths::joined_path(job_dir, "series"@), "geo"@), name)
}

/// The path of the elevation model.
pub open spec fn dem_file(job_dir: Seq<char>) -> Seq<char> {
    paths::joined_path(paths::joined_path(job_dir, "dem"@), "full_res.dem.wgs84"@)
}

/// The files that a velocity map is made from.
pub open spec fn velocity_files(job_dir: Seq<char>) -> Seq<Seq<char>> {
    seq![
        series_file(job_dir, "geo_velocity.h5"@),
        series_file(job_dir, "geo_maskTempCoh.h5"@),
        dem_file(job_dir),
    ]
}

/// The files that a velocity map is made from.
pub fn velocity_inputs(job_dir: &str) -> (r: Vec<String>)
    ensures
        text::texts(r@) == velocity_files(job_dir@),
{
    let series_dir = join2(job_dir, "series", "geo");
    let all: Vec<String> = vec![
        join(series_dir.as_str(), "geo_velocity.h5"),
        join(series_dir.as_str(), "geo_maskTempCoh.h5"),
        join2(job_dir, "dem", "full_res.dem.wgs84"),
    ];
    assert(text::texts(all@) =~= velocity_files(job_dir@));
    all
}

/// The command that draws a velocity map.
pub open spec fn velocity_command(
    job_dir: Seq<char>,
    output: Seq<char>,
) -> command::InvocationModel {
    command::InvocationModel {
        program: "view.py"@,
        args: seq![
            series_file(job_dir, "geo_velocity.h5"@),
            "velocity"@,
            "-m"@,
            series_file(job_dir, "geo_maskTempCoh.h5"@),
            "-d"@,
            dem_file(job_dir),
            "-v"@,
            "-10"@,
            "10"@,
            "--notitle"@,
            "--nodisplay"@,
            "-o"@,
            output,
        ],
    }
}

/// The command that draws the velocity map of a job, where `present` tells which
/// of its inputs exist. The first that does not is complained of.
pub fn run_velocity(job_dir: &str, output: &str, present: &Vec<bool>) -> (r: Result<
    Invocation,
    String,
>)
    requires
        present.len() == 3,
    ensures
        match r {
            Ok(command) => {
                &&& present[0] && present[1] && present[2]
                &&& command@ == velocity_command(job_dir@, output@)
            },
            Err(message) => exists|k: int|
                {
                    &&& 0 <= k < 3
                    &&& !present[k]
                    &&& forall|i: int| 0 <= i < k ==> present[i]
                    &&& message@ == missing(#[trigger] velocity_files(job_dir@)[k])
                },
        },
{
    let files = velocity_inputs(job_dir);
    assert(text::texts(files@).len() == files.len());
    for i in 0..files.len()
        invariant
            present.len() == 3,
            files.len() == 3,
            text::texts(files@) == velocity_files(job_dir@),
            forall|j: int| 0 <= j < i ==> present[j],
    {
        assert(text::texts(files@)[i as int] == files[i as int]@);
        match require_file(files[i].as_str(), present[i]) {
            Ok(()) => {},
            Err(message) => {
                assert(message@ == missing(velocity_files(job_dir@)[i as int]));
                return Err(message);
            },
        }
    }
    let command = Invocation {
        program: "view.py".to_owned(),
        args: vec![
            files[0].clone(),
            "velocity".to_owned(),
            "-m".to_owned(),
            files[1].clone(),
            "-d".to_owned(),
            files[2].clone(),
            "-v".to_owned(),
            "-10".to_owned(),
            "10".to_owned(),
            "--notitle".to_owned(),
            "--nodisplay".to_owned(),
            "-o".to_owned(),
            output.to_owned(),
        ],
    };
    proof {
        assert(files[0]@ == text::texts(files@)[0]);
        assert(files[1]@ == text::texts(files@)[1]);
        assert(files[2]@ == text::texts(files@)[2]);
        assert(command@.args =~= velocity_command(job_dir@, output@).args);
    }
    Ok(command)
}

/// What is made of the end of `view.py`.
pub fn velocity_outcome(code: Option<i32>) -> (r: Result<(), Failure>)
    ensures
        match r {
            Ok(()) => code == Some(0i32),
            Err(failure) => code != Some(0i32) && failure@ == (FailureModel {
                context: Some("view.py failed"@),
                message: failed_run("view.py"@, code),
            }),
        },
{
    match run_command("view.py", code) {
        Ok(()) => Ok(()),
        Err(message) => Err(Failure { context: Some("view.py failed".to_owned()), message }),
    }
}

// ---------------------------------------------------------------------------
// timeseries
// ---------------------------------------------------------------------------

/// What the intermediate files of a time series are called, up to the extension.
pub open spec fn series_stem(lat: Seq<char>, lon: Seq<char>) -> Seq<char> {
    "series_"@ + lat + "_"@ + lon
}

/// A path without the extension of a PNG image.
pub open spec fn png_stem(output: Seq<char>) -> Seq<char> {
    if ".png"@.is_suffix_of(output) {
        output.take(output.len() - ".png"@.len())
    } else {
        output
    }
}

fn strip_png(output: &str) -> (r: String)
    ensures
        r@ == png_stem(output@),
{
    if ends_with(output, ".png") {
        let v = chars_of(output);
        let extension: usize = chars_of(".png").len();
        assert(v@.subrange(0, v.len() - extension) =~= output@.take(v.len() - extension));
        string_of(&v, 0, v.len() - extension)
    } else {
        output.to_owned()
    }
}

/// How far a time series has come.
#[derive(Debug, Clone, Copy, PartialEq, Eq, Structural)]
pub enum Phase {
    /// Whether the input exists is to be told.
    Input,
    /// `tsview.py` runs.
    Plotting,
    /// Whether the PDF exists is to be told.
    Plotted,
    /// `pdftocairo` runs.
    Converting,
    /// The PDF is being removed.
    Cleaning,
    /// Whether the PNG exists is to be told.
    Written,
    /// It is over.
    Done,
}

/// What has happened.
#[derive(Debug)]
pub enum Event {
    /// Whether the file that was asked for exists.
    Present(bool),
    /// The exit code of the program, if it has one.
    Exited(Option<i32>),
    /// The error with which the removal of the file failed, if it did.
    Removed(Option<String>),
}

/// What an `Event` says.
pub enum EventModel {
    Present(bool),
    Exited(Option<i32>),
    Removed(Option<Seq<char>>),
}

impl View for Event {
    type V = EventModel;

    open spec fn view(&self) -> EventModel {
        match *self {
            Event::Present(b) => EventModel::Present(b),
            Event::Exited(code) => EventModel::Exited(code),
            Event::Removed(error) => EventModel::Removed(text::opt_text(error)),
        }
    }
}

/// What to do next.
#[derive(Debug)]
pub enum Action {
    /// Tell whether the file exists.
    Look(String),
    /// Run the program.
    Run(Invocation),
    /// Remove the file, if it exists.
    Remove(String),
    /// The image is written.
    Finish,
    /// Give up.
    Fail(Failure),
}

/// What an `Action` says.
#[allow(inconsistent_fields)]
pub enum ActionModel {
    Look(Seq<char>),
    Run(command::InvocationModel),
    Remove(Seq<char>),
    Finish,
    Fail(FailureModel),
}

impl View for Action {
    type V = ActionModel;

    open spec fn view(&self) -> ActionModel {
        match *self {
            Action::Look(path) => ActionModel::Look(path@),
            Action::Run(command) => ActionModel::Run(command@),
            Action::Remove(path) => ActionModel::Remove(path@),
            Action::Finish => ActionModel::Finish,
            Action::Fail(failure) => ActionModel::Fail(failure@),
        }
    }
}

/// A time series for a point.
#[derive(Debug)]
pub struct Series {
    pub input: String,
    pub lat: String,
    pub lon: String,
    /// Where the image is to be written.
    pub output: String,
    pub phase: Phase,
}

/// What a `Series` says.
pub struct SeriesModel {
    pub input: Seq<char>,
    pub lat: Seq<char>,
    pub lon: Seq<char>,
    pub output: Seq<char>,
    pub phase: Phase,
}

impl View for Series {
    type V = SeriesModel;

    open spec fn view(&self) -> SeriesModel {
        SeriesModel {
            input: self.input@,
            lat: self.lat@,
            lon: self.lon@,
            output: self.output@,
            phase: self.phase,
        }
    }
}

impl SeriesModel {
    /// Whether an event is one that is waited for.
    pub open spec fn expects(self, event: EventModel) -> bool {
        match self.phase {
            Phase::Input | Phase::Plotted | Phase::Written => event is Present,
            Phase::Plotting | Phase::Converting => event is Exited,
            Phase::Cleaning => event is Removed,
            Phase::Done => false,
        }
    }

    /// The path of an intermediate file, alongside the output.
    pub open spec fn beside(self, ending: Seq<char>) -> Seq<char> {
        paths::joined_path(
            paths::parent_path(self.output),
            series_stem(self.lat, self.lon) + ending,
        )
    }

    /// The path of the image: the output, with the extension of a PNG image.
    pub open spec fn image(self) -> Seq<char> {
        png_stem(self.output) + ".png"@
    }

    /// The command that draws the series to a PDF.
    pub open spec fn plot_command(self) -> command::InvocationModel {
        command::InvocationModel {
            program: "tsview.py"@,
            args: seq![
                self.input,
                "--zf"@,
                "-u"@,
                "cm"@,
                "--lalo"@,
                self.lat,
                self.lon,
                "--nodisplay"@,
                "-o"@,
                self.beside(".pdf"@),
            ],
        }
    }

    /// The command that converts the PDF to a PNG, whose name it takes without the
    /// extension.
    pub open spec fn convert_command(self) -> command::InvocationModel {
        command::InvocationModel {
            program: "pdftocairo"@,
            args: seq![
                "-png"@,
                "-r"@,
                "150"@,
                "-singlefile"@,
                self.beside("_ts.pdf"@),
                png_stem(self.output),
            ],
        }
    }

    /// The phase that follows an event.
    pub open spec fn next_phase(self, event: EventModel) -> Phase {
        match (self.phase, event) {
            (Phase::Input, EventModel::Present(true)) => Phase::Plotting,
            (Phase::Plotting, EventModel::Exited(Some(0))) => Phase::Plotted,
            (Phase::Plotted, EventModel::Present(true)) => Phase::Converting,
            (Phase::Converting, EventModel::Exited(Some(0))) => Phase::Cleaning,
            (Phase::Cleaning, EventModel::Removed(None)) => Phase::Written,
            _ => Phase::Done,
        }
    }

    /// What is to be done after an event.
    pub open spec fn next_action(self, event: EventModel) -> ActionModel {
        match (self.phase, event) {
            (Phase::Input, EventModel::Present(there)) => if there {
                ActionModel::Run(self.plot_command())
            } else {
                ActionModel::Fail(FailureModel { context: None, message: missing(self.input) })
            },
            (Phase::Plotting, EventModel::Exited(code)) => if code == Some(0i32) {
                ActionModel::Look(self.beside("_ts.pdf"@))
            } else {
                ActionModel::Fail(
                    FailureModel {
                        context: Some("tsview.py failed"@),
                        message: failed_run("tsview.py"@, code),
                    },
                )
            },
            (Phase::Plotted, EventModel::Present(there)) => if there {
                ActionModel::Run(self.convert_command())
            } else {
                ActionModel::Fail(
                    FailureModel { context: None, message: missing(self.beside("_ts.pdf"@)) },
                )
            },
            (Phase::Converting, EventModel::Exited(code)) => if code == Some(0i32) {
                ActionModel::Remove(self.beside("_ts.pdf"@))
            } else {
                ActionModel::Fail(
                    FailureModel {
                        context: Some("pdftocairo failed"@),
                        message: failed_run("pdftocairo"@, code),
                    },
                )
            },
            (Phase::Cleaning, EventModel::Removed(error)) => match error {
                None => ActionModel::Look(self.image()),
                Some(error) => ActionModel::Fail(
                    FailureModel {
                        context: Some("removing intermediate PDF "@ + self.beside("_ts.pdf"@)),
                        message: error,
                    },
                ),
            },
            (Phase::Written, EventModel::Present(there)) => if there {
                ActionModel::Finish
            } else {
                ActionModel::Fail(
                    FailureModel { context: None, message: missing(self.image()) },
                )
            },
            _ => ActionModel::Finish,
        }
    }
}

impl Series {
    /// Begins the series of a job for a point, whose coordinates are given as
    /// texts; `output` is where the image is to be written. The first thing to do
    /// is to tell whether its input exists.
    pub fn start(job_dir: &str, lat: &str, lon: &str, output: &str) -> (r: (Series, Action))
        ensures
            r.0@ == (SeriesModel {
                input: series_file(job_dir@, "geo_timeseries_ERA5_ramp_demErr.h5"@),
                lat: lat@,
                lon: lon@,
                output: output@,
                phase: Phase::Input,
            }),
            r.1@ == ActionModel::Look(r.0@.input),
    {
        let series_dir = join2(job_dir, "series", "geo");
        let input = join(series_dir.as_str(), "geo_timeseries_ERA5_ramp_demErr.h5");
        let action = Action::Look(input.clone());
        (
            Series {
                input,
                lat: lat.to_owned(),
                lon: lon.to_owned(),
                output: output.to_owned(),
                phase: Phase::Input,
            },
            action,
        )
    }

    fn beside(&self, ending: &str) -> (r: String)
        ensures
            r@ == self@.beside(ending@),
    {
        let stem = concat4("series_", self.lat.as_str(), "_", self.lon.as_str());
        let name = concat2(stem.as_str(), ending);
        join(parent(self.output.as_str()).as_str(), name.as_str())
    }

    fn image_path(&self) -> (r: String)
        ensures
            r@ == self@.image(),
    {
        concat2(strip_png(self.output.as_str()).as_str(), ".png")
    }

    fn run_timeseries(&self) -> (r: Invocation)
        ensures
            r@ == self@.plot_command(),
    {
        let r = Invocation {
            program: "tsview.py".to_owned(),
            args: vec![
                self.input.clone(),
                "--zf".to_owned(),
                "-u".to_owned(),
                "cm".to_owned(),
                "--lalo".to_owned(),
                self.lat.clone(),
                self.lon.clone(),
                "--nodisplay".to_owned(),
                "-o".to_owned(),
                self.beside(".pdf"),
            ],
        };
        assert(r@.args =~= self@.plot_command().args);
        r
    }

    fn convert(&self) -> (r: Invocation)
        ensures
            r@ == self@.convert_command(),
    {
        let r = Invocation {
            program: "pdftocairo".to_owned(),
            args: vec![
                "-png".to_owned(),
                "-r".to_owned(),
                "150".to_owned(),
                "-singlefile".to_owned(),
                self.beside("_ts.pdf"),
                strip_png(self.output.as_str()),
            ],
        };
        assert(r@.args =~= self@.convert_command().args);
        r
    }

    /// Takes an event that is waited for, and says what to do next.
    pub fn step(&mut self, event: Event) -> (r: Action)
        requires
            old(self)@.expects(event@),
        ensures
            final(self)@ == (SeriesModel { phase: old(self)@.next_phase(event@), ..old(self)@ }),
            r@ == old(self)@.next_action(event@),
    {
        let phase = self.phase;
        match event {
            Event::Present(there) => {
                let path = match phase {
                    Phase::Input => self.input.clone(),
                    Phase::Plotted => self.beside("_ts.pdf"),
                    _ => self.image_path(),
                };
                match require_file(path.as_str(), there) {
                    Err(message) => {
                        self.phase = Phase::Done;
                        Action::Fail(Failure { context: None, message })
                    },
                    Ok(()) => match phase {
                        Phase::Input => {
                            let command = self.run_timeseries();
                            self.phase = Phase::Plotting;
                            Action::Run(command)
                        },
                        Phase::Plotted => {
                            let command = self.convert();
                            self.phase = Phase::Converting;
                            Action::Run(command)
                        },
                        _ => {
                            self.phase = Phase::Done;
                            Action::Finish
                        },
                    },
                }
            },
            Event::Exited(code) => match phase {
                Phase::Plotting => match run_command("tsview.py", code) {
                    Ok(()) => {
                        let path = self.beside("_ts.pdf");
                        self.phase = Phase::Plotted;
                        Action::Look(path)
                    },
                    Err(message) => {
                        self.phase = Phase::Done;
                        Action::Fail(
                            Failure { context: Some("tsview.py failed".to_owned()), message },
                        )
                    },
                },
                _ => match run_command("pdftocairo", code) {
                    Ok(()) => {
                        let path = self.beside("_ts.pdf");
                        self.phase = Phase::Cleaning;
                        Action::Remove(path)
                    },
                    Err(message) => {
                        self.phase = Phase::Done;
                        Action::Fail(
                            Failure { context: Some("pdftocairo failed".to_owned()), message },
                        )
                    },
                },
            },
            Event::Removed(error) => match error {
                None => {
                    let path = self.image_path();
                    self.phase = Phase::Written;
                    Action::Look(path)
                },
                Some(message) => {
                    let path = self.beside("_ts.pdf");
                    self.phase = Phase::Done;
                    Action::Fail(
                        Failure {
                            context: Some(concat2("removing intermediate PDF ", path.as_str())),
                            message,
                        },
                    )
                },
            },
        }
    }
}

/// A series ends well only when its image was seen to be there.
pub proof fn finished_series_are_written(series: SeriesModel, event: EventModel)
    requires
        series.expects(event),
    ensures
        series.next_action(event) is Finish <==> series.phase == Phase::Written && event
            == EventModel::Present(true),
        series.next_action(event) is Finish || series.next_action(event) is Fail
            <==> series.next_phase(event) == Phase::Done,
{
}

/// The image is written at the output, where that names a PNG image: it is the
/// file that the conversion is told to write and the file that is looked for.
pub proof fn images_stand_at_the_output(series: SeriesModel)
    requires
        ".png"@.is_suffix_of(series.output),
    ensures
        series.image() == series.output,
        series.convert_command().args.last() + ".png"@ == series.output,
{
    let n = series.output.len() - ".png"@.len();
    assert(series.output.take(n) + series.output.skip(n) =~= series.output);
}

/// The image of a series whose output is the name that a result request gives
/// for the point is found in its directory by that name.
pub proof fn written_series_are_found(series: SeriesModel, results_dir: Seq<char>)
    requires
        series.output == paths::joined_path(
            results_dir,
            result::series_prefix(series.lat, series.lon),
        ),
    ensures
        ({
            let name = result::series_prefix(series.lat, series.lon) + ".png"@;
            &&& series.image() == paths::joined_path(results_dir, name)
            &&& result::is_output(name, result::series_prefix(series.lat, series.lon))
        }),
{
    reveal_strlit("timeseries_");
    reveal_strlit("_");
    reveal_strlit(".png");
    let prefix = result::series_prefix(series.lat, series.lon);
    let name = prefix + ".png"@;
    assert(prefix[0] == 't');
    assert(prefix.last() == '_');
    assert(name[0] == 't');
    assert(series.output.last() == '_');
    assert(!".png"@.is_suffix_of(series.output)) by {
        if ".png"@.is_suffix_of(series.output) {
            let n = series.output.len() - 4;
            assert(series.output.skip(n)[3] == 'g');
        }
    }
    assert(series.image() =~= paths::joined_path(results_dir, name));
    assert(name.take(prefix.len() as int) =~= prefix);
    assert(name.skip(prefix.len() as int) =~= ".png"@);
    assert(prefix.is_prefix_of(name));
    assert(".png"@.is_suffix_of(name));
}

/// The velocity map is drawn by `view.py`, of the velocity of the job, under its mask
/// and over its elevation model, within ten centimetres a year both ways, to the
/// output: the files that it is drawn from are the three that have to be there.
pub proof fn velocity_is_drawn_from_its_inputs(job_dir: Seq<char>, output: Seq<char>)
    ensures
        ({
            let command = velocity_command(job_dir, output);
            let files = velocity_files(job_dir);
            &&& command.program == "view.py"@
            &&& command.args[0] == files[0] && command.args[1] == "velocity"@
            &&& command.args[2] == "-m"@ && command.args[3] == files[1]
            &&& command.args[4] == "-d"@ && command.args[5] == files[2]
            &&& command.args[6] == "-v"@ && command.args[7] == "-10"@ && command.args[8] == "10"@
            &&& command.args[11] == "-o"@ && command.args[12] == output
            &&& command.args.len() == 13
        }),
        job_dir.len() > 0 && job_dir.last() != '/' ==> velocity_files(job_dir) == seq![
            job_dir + "/series/geo/geo_velocity.h5"@,
            job_dir + "/series/geo/geo_maskTempCoh.h5"@,
            job_dir + "/dem/full_res.dem.wgs84"@,
        ],
{
    if job_dir.len() > 0 && job_dir.last() != '/' {
        reveal_strlit("/");
        reveal_strlit("series");
        reveal_strlit("geo");
        reveal_strlit("dem");
        reveal_strlit("geo_velocity.h5");
        reveal_strlit("geo_maskTempCoh.h5");
        reveal_strlit("full_res.dem.wgs84");
        reveal_strlit("/series/geo/geo_velocity.h5");
        reveal_strlit("/series/geo/geo_maskTempCoh.h5");
        reveal_strlit("/dem/full_res.dem.wgs84");
        let series = paths::joined_path(job_dir, "series"@);
        assert(series.last() == 's');
        let geo = paths::joined_path(series, "geo"@);
        assert(geo.last() == 'o');
        let dem = paths::joined_path(job_dir, "dem"@);
        assert(dem.last() == 'm');
        assert(series_file(job_dir, "geo_velocity.h5"@) =~= job_dir
            + "/series/geo/geo_velocity.h5"@);
        assert(series_file(job_dir, "geo_maskTempCoh.h5"@) =~= job_dir
            + "/series/geo/geo_maskTempCoh.h5"@);
        assert(dem_file(job_dir) =~= job_dir + "/dem/full_res.dem.wgs84"@);
        assert(velocity_files(job_dir) =~= seq![
            job_dir + "/series/geo/geo_velocity.h5"@,
            job_dir + "/series/geo/geo_maskTempCoh.h5"@,
            job_dir + "/dem/full_res.dem.wgs84"@,
        ]);
    }
}

/// The series is drawn of its input, at its point: the latitude comes before the
/// longitude. What is converted is the PDF that is looked for after the drawing, and
/// the same PDF is removed afterwards.
pub proof fn series_are_drawn_at_their_point(
    looks: SeriesModel,
    plots: SeriesModel,
    plotted: SeriesModel,
    converting: SeriesModel,
)
    requires
        looks.phase == Phase::Input,
        plots == (SeriesModel { phase: Phase::Plotting, ..looks }),
        plotted == (SeriesModel { phase: Phase::Plotted, ..looks }),
        converting == (SeriesModel { phase: Phase::Converting, ..looks }),
    ensures
        looks.next_phase(EventModel::Present(true)) == plots.phase,
        plots.next_phase(EventModel::Exited(Some(0i32))) == plotted.phase,
        plotted.next_phase(EventModel::Present(true)) == converting.phase,
        looks.next_action(EventModel::Present(true)) matches ActionModel::Run(plot) && {
            &&& plot.program == "tsview.py"@
            &&& plot.args[0] == looks.input
            &&& plot.args[4] == "--lalo"@
            &&& plot.args[5] == looks.lat
            &&& plot.args[6] == looks.lon
        },
        plots.next_action(EventModel::Exited(Some(0i32))) matches ActionModel::Look(pdf) && {
            &&& plotted.next_action(EventModel::Present(true)) matches ActionModel::Run(convert)
                && convert.program == "pdftocairo"@ && convert.args[4] == pdf
            &&& converting.next_action(EventModel::Exited(Some(0i32))) == ActionModel::Remove(pdf)
        },
{
}

} // verus!
