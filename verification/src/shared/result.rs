//! Result requests: the artifacts that users ask for, and the files that hold
//! them.
use vstd::prelude::*;

use crate::float64;
use crate::float64::{Number, NumberModel};
use crate::ids::Uuid;
use crate::json;
use crate::json::number_at;
use crate::paths;
use crate::paths::join;
use crate::text;
use crate::text::{concat5, ends_with, starts_with, text_eq};
use crate::time::Timestamp;

verus! {

// ---------------------------------------------------------------------------
// ResultType
// ---------------------------------------------------------------------------

/// The kind of output artifact a result request will produce.
///
/// Maps 1-to-1 with the `result_type` CHECK constraint in the DB.
#[derive(Debug, Clone, Copy, PartialEq, Eq, Structural)]
pub enum ResultType {
    Velocity,
    Timeseries,
    AiSummary,
    Dem,
    Model3d,
}

impl ResultType {
    /// The name stored in the database.
    pub open spec fn name(self) -> Seq<char> {
        match self {
            Self::Velocity => "velocity"@,
            Self::Timeseries => "timeseries"@,
            Self::AiSummary => "ai_summary"@,
            Self::Dem => "dem"@,
            Self::Model3d => "3d_model"@,
        }
    }

    /// The type that a text names.
    pub open spec fn named(s: Seq<char>) -> Option<ResultType> {
        if exists|t: ResultType| s == #[trigger] t.name() {
            Some(choose|t: ResultType| s == #[trigger] t.name())
        } else {
            None
        }
    }

    /// Whether the type is implemented: both kinds of image are.
    pub open spec fn is_image(self) -> bool {
        self is Velocity || self is Timeseries
    }

    /// The name of the type.
    pub fn as_str(&self) -> (r: &'static str)
        ensures
            r@ == self.name(),
    {
        match self {
            Self::Velocity => "velocity",
            Self::Timeseries => "timeseries",
            Self::AiSummary => "ai_summary",
            Self::Dem => "dem",
            Self::Model3d => "3d_model",
        }
    }

    /// The type of a given name; none for any other text.
    pub fn from_str(s: &str) -> (r: Option<Self>)
        ensures
            r == Self::named(s@),
    {
        let r = if text_eq(s, "velocity") {
            Some(Self::Velocity)
        } else if text_eq(s, "timeseries") {
            Some(Self::Timeseries)
        } else if text_eq(s, "ai_summary") {
            Some(Self::AiSummary)
        } else if text_eq(s, "dem") {
            Some(Self::Dem)
        } else if text_eq(s, "3d_model") {
            Some(Self::Model3d)
        } else {
            None
        };
        proof {
            if r is Some {
                assert(s@ == (r->0).name());
                Self::named_is_unique(r->0);
            } else {
                assert forall|t: ResultType| s@ != #[trigger] t.name() by {
                    match t {
                        Self::Velocity => {},
                        Self::Timeseries => {},
                        Self::AiSummary => {},
                        Self::Dem => {},
                        Self::Model3d => {},
                    }
                }
            }
        }
        r
    }

    /// File extension of the output artifact written by the results container.
    /// Returns `None` for stub types that are not yet implemented.
    pub fn output_extension(&self) -> (r: Option<&'static str>)
        ensures
            text::opt_str(r) == if self.is_image() {
                Some("png"@)
            } else {
                None
            },
    {
        match self {
            Self::Velocity => Some("png"),
            Self::Timeseries => Some("png"),
            Self::AiSummary => None,
            Self::Dem => None,
            Self::Model3d => None,
        }
    }

    /// MIME type for the output file, if implemented.
    pub fn mime(&self) -> (r: Option<&'static str>)
        ensures
            text::opt_str(r) == if self.is_image() {
                Some("image/png"@)
            } else {
                None
            },
    {
        match self {
            Self::Velocity => Some("image/png"),
            Self::Timeseries => Some("image/png"),
            Self::AiSummary => None,
            Self::Dem => None,
            Self::Model3d => None,
        }
    }

    /// Different types have different names.
    pub proof fn names_differ(a: ResultType, b: ResultType)
        requires
            a.name() == b.name(),
        ensures
            a == b,
    {
        reveal_strlit("velocity");
        reveal_strlit("timeseries");
        reveal_strlit("ai_summary");
        reveal_strlit("dem");
        reveal_strlit("3d_model");
        assert("velocity"@.len() == 8);
        assert("timeseries"@.len() == 10);
        assert("ai_summary"@.len() == 10);
        assert("dem"@.len() == 3);
        assert("3d_model"@.len() == 8);
        assert("velocity"@[0] != "3d_model"@[0]);
        assert("timeseries"@[0] != "ai_summary"@[0]);
    }

    /// The type whose name reads back is the type itself.
    pub proof fn named_is_unique(t: ResultType)
        ensures
            Self::named(t.name()) == Some(t),
    {
        Self::names_differ(Self::named(t.name())->0, t);
    }
}

// ---------------------------------------------------------------------------
// ResultState
// ---------------------------------------------------------------------------

/// Where a result request stands.
#[derive(Debug, Clone, Copy, PartialEq, Eq, Structural)]
pub enum ResultState {
    Queued,
    Running,
    Completed,
    Failed,
}

impl ResultState {
    /// The name stored in the database.
    pub open spec fn name(self) -> Seq<char> {
        match self {
            Self::Queued => "queued"@,
            Self::Running => "running"@,
            Self::Completed => "completed"@,
            Self::Failed => "failed"@,
        }
    }

    /// The state that a text names.
    pub open spec fn named(s: Seq<char>) -> Option<ResultState> {
        if exists|t: ResultState| s == #[trigger] t.name() {
            Some(choose|t: ResultState| s == #[trigger] t.name())
        } else {
            None
        }
    }

    /// The name of the state.
    pub fn as_str(&self) -> (r: &'static str)
        ensures
            r@ == self.name(),
    {
        match self {
            Self::Queued => "queued",
            Self::Running => "running",
            Self::Completed => "completed",
            Self::Failed => "failed",
        }
    }

    /// The state of a given name; none for any other text.
    pub fn from_str(s: &str) -> (r: Option<Self>)
        ensures
            r == Self::named(s@),
    {
        let r = if text_eq(s, "queued") {
            Some(Self::Queued)
        } else if text_eq(s, "running") {
            Some(Self::Running)
        } else if text_eq(s, "completed") {
            Some(Self::Completed)
        } else if text_eq(s, "failed") {
            Some(Self::Failed)
        } else {
            None
        };
        proof {
            if r is Some {
                assert(s@ == (r->0).name());
                Self::named_is_unique(r->0);
            } else {
                assert forall|t: ResultState| s@ != #[trigger] t.name() by {
                    match t {
                        Self::Queued => {},
                        Self::Running => {},
                        Self::Completed => {},
                        Self::Failed => {},
                    }
                }
            }
        }
        r
    }

    /// Whether the request has been dealt with.
    pub fn is_terminal(&self) -> (r: bool)
        ensures
            r == (*self is Completed || *self is Failed),
    {
        matches!(self, Self::Completed | Self::Failed)
    }

    /// Different states have different names.
    pub proof fn names_differ(a: ResultState, b: ResultState)
        requires
            a.name() == b.name(),
        ensures
            a == b,
    {
        reveal_strlit("queued");
        reveal_strlit("running");
        reveal_strlit("completed");
        reveal_strlit("failed");
        assert("queued"@.len() == 6);
        assert("running"@.len() == 7);
        assert("completed"@.len() == 9);
        assert("failed"@.len() == 6);
        assert("queued"@[0] != "failed"@[0]);
    }

    /// The state whose name reads back is the state itself.
    pub proof fn named_is_unique(t: ResultState)
        ensures
            Self::named(t.name()) == Some(t),
    {
        Self::names_differ(Self::named(t.name())->0, t);
    }
}

// ---------------------------------------------------------------------------
// ResultRequest
// ---------------------------------------------------------------------------

/// A fully decoded result request record.
#[derive(Debug)]
pub struct ResultRequest {
    pub id: Uuid,
    /// Absent for demo result requests (no row in the jobs table).
    pub job_id: Option<Uuid>,
    pub result_type: ResultType,
    /// JSON text of the params (e.g. `{"lat": -32.89, "lon": -68.84}` for
    /// timeseries).
    pub params: Option<String>,
    pub state: ResultState,
    pub error: Option<String>,
    /// Absolute path to the job/demo working directory.
    /// - For regular jobs: absent in the DB; the scheduler resolves it via the
    ///   jobs table.
    /// - For demo result requests: populated by the API at enqueue time
    ///   (e.g. `/sisar/demos/<name>`); the scheduler uses it directly.
    pub work_dir: Option<String>,
    pub created_at: Timestamp,
    pub updated_at: Timestamp,
}

/// The file that holds the output of a result request.
#[derive(Debug)]
pub enum OutputFile {
    /// The file at this path.
    Fixed(String),
    /// The entry of the listed directory at this position.
    Listed(usize),
}

/// What a time-series image for a point is called, up to the scene date.
pub open spec fn series_prefix(lat: Seq<char>, lon: Seq<char>) -> Seq<char> {
    "timeseries_"@ + lat + "_"@ + lon + "_"@
}

/// What a time-series image is called, up to the scene date, for coordinates
/// that are both present.
pub open spec fn prefix_of(
    lat: Option<NumberModel>,
    lon: Option<NumberModel>,
) -> Option<Seq<char>> {
    match (lat, lon) {
        (Some(lat), Some(lon)) => Some(series_prefix(lat.text, lon.text)),
        _ => None,
    }
}

/// What a time-series image is called, up to the scene date, for the
/// coordinates that are both present.
pub fn prefix_for(lat: &Option<Number>, lon: &Option<Number>) -> (r: Option<
    String,
>)
    ensures
        text::opt_text(r) == prefix_of(float64::opt_number(*lat), float64::opt_number(*lon)),
{
    match (lat, lon) {
        (Some(lat), Some(lon)) => Some(
            concat5("timeseries_", lat.text.as_str(), "_", lon.text.as_str(), "_"),
        ),
        _ => None,
    }
}

/// Whether a file name has the given beginning and is that of a PNG image.
pub open spec fn is_output(name: Seq<char>, prefix: Seq<char>) -> bool {
    prefix.is_prefix_of(name) && ".png"@.is_suffix_of(name)
}

/// The first PNG image in a listing whose name starts with `prefix`.
pub fn find_output(names: &Vec<String>, prefix: &str) -> (r: Option<usize>)
    ensures
        match r {
            Some(k) => k < names.len() && is_output(names[k as int]@, prefix@) && forall|i: int|
                0 <= i < k ==> !is_output(#[trigger] names[i]@, prefix@),
            None => forall|i: int|
                0 <= i < names.len() ==> !is_output(#[trigger] names[i]@, prefix@),
        },
{
    for k in 0..names.len()
        invariant
            forall|i: int| 0 <= i < k ==> !is_output(#[trigger] names[i]@, prefix@),
    {
        if starts_with(names[k].as_str(), prefix) && ends_with(names[k].as_str(), ".png") {
            return Some(k);
        }
    }
    None
}

impl ResultRequest {
    /// The number that the params hold under a key.
    pub open spec fn param(self, key: Seq<char>) -> Option<NumberModel> {
        match self.params {
            Some(params) => json::json_value(params@, key),
            None => None,
        }
    }

    /// The name of the output file, or what it starts with.
    pub open spec fn output_name(self) -> Option<Seq<char>> {
        match self.result_type {
            ResultType::Velocity => Some("velocity.png"@),
            ResultType::Timeseries => prefix_of(self.param("lat"@), self.param("lon"@)),
            _ => None,
        }
    }

    /// Reads the number that the params hold under a key.
    pub fn read_param(&self, key: &str) -> (r: Option<Number>)
        ensures
            float64::opt_number(r) == self.param(key@),
    {
        match &self.params {
            Some(params) => number_at(params.as_str(), key),
            None => None,
        }
    }

    /// For velocity: returns the fixed filename.
    /// For timeseries: returns the prefix used by `resolve_output_file`.
    /// Returns `None` for stub types with no output file.
    pub fn output_filename(&self) -> (r: Option<String>)
        ensures
            text::opt_text(r) == self.output_name(),
    {
        match self.result_type {
            ResultType::Velocity => Some("velocity.png".to_owned()),
            ResultType::Timeseries => {
                let lat = self.read_param("lat");
                let lon = self.read_param("lon");
                prefix_for(&lat, &lon)
            },
            _ => None,
        }
    }

    /// Resolves the actual output file inside `results_dir`, whose entries are
    /// listed in `names`.
    ///
    /// - Velocity: the fixed `velocity.png`, if `velocity_exists` says it is there.
    /// - Timeseries: the results container appends a scene date to the filename
    ///   (`timeseries_<lat>_<lon>_<YYYYMMDD>.png`), so this is the first `.png`
    ///   that starts with the expected prefix instead of an exact name.
    ///
    /// Returns `None` when `output_filename()` returns `None` (stub types) or
    /// when no matching file is found.
    pub fn resolve_output_file(
        &self,
        results_dir: &str,
        velocity_exists: bool,
        names: &Vec<String>,
    ) -> (r: Option<OutputFile>)
        ensures
            match self.result_type {
                ResultType::Velocity => match r {
                    Some(OutputFile::Fixed(path)) => velocity_exists && path@
                        == paths::joined_path(results_dir@, "velocity.png"@),
                    Some(OutputFile::Listed(_)) => false,
                    None => !velocity_exists,
                },
                ResultType::Timeseries => match (self.output_name(), r) {
                    (Some(prefix), Some(OutputFile::Listed(k))) => k < names.len() && is_output(
                        names[k as int]@,
                        prefix,
                    ) && forall|i: int|
                        0 <= i < k ==> !is_output(#[trigger] names[i]@, prefix),
                    (Some(prefix), None) => forall|i: int|
                        0 <= i < names.len() ==> !is_output(#[trigger] names[i]@, prefix),
                    (None, r) => r is None,
                    _ => false,
                },
                _ => r is None,
            },
    {
        match self.result_type {
            ResultType::Velocity => {
                if velocity_exists {
                    Some(OutputFile::Fixed(join(results_dir, "velocity.png")))
                } else {
                    None
                }
            },
            ResultType::Timeseries => {
                match self.output_filename() {
                    None => None,
                    Some(prefix) => match find_output(names, prefix.as_str()) {
                        Some(k) => Some(OutputFile::Listed(k)),
                        None => None,
                    },
                }
            },
            _ => None,
        }
    }
}

// ---------------------------------------------------------------------------
// Database rows
// ---------------------------------------------------------------------------

/// Direct mapping of the `result_requests` table row.
#[derive(Debug)]
pub struct ResultRequestRow {
    pub id: Uuid,
    pub job_id: Option<Uuid>,
    pub result_type: String,
    pub params: Option<String>,
    pub state: String,
    pub error: Option<String>,
    pub work_dir: Option<String>,
    pub created_at: Timestamp,
    pub updated_at: Timestamp,
}

/// Why a row is no result request.
#[derive(Debug)]
pub enum ResultRequestRowError {
    UnknownType(String),
    UnknownState(String),
}

/// What a `ResultRequestRowError` says.
pub enum ResultRequestRowErrorModel {
    UnknownType(Seq<char>),
    UnknownState(Seq<char>),
}

impl View for ResultRequestRowError {
    type V = ResultRequestRowErrorModel;

    open spec fn view(&self) -> ResultRequestRowErrorModel {
        match *self {
            ResultRequestRowError::UnknownType(s) => ResultRequestRowErrorModel::UnknownType(s@),
            ResultRequestRowError::UnknownState(s) => ResultRequestRowErrorModel::UnknownState(s@),
        }
    }
}

impl ResultRequest {
    /// Whether the request is what the row stores.
    pub open spec fn decodes(self, row: ResultRequestRow) -> bool {
        &&& self.id == row.id
        &&& self.job_id == row.job_id
        &&& ResultType::named(row.result_type@) == Some(self.result_type)
        &&& text::opt_text(self.params) == text::opt_text(row.params)
        &&& ResultState::named(row.state@) == Some(self.state)
        &&& text::opt_text(self.error) == text::opt_text(row.error)
        &&& text::opt_text(self.work_dir) == text::opt_text(row.work_dir)
        &&& self.created_at == row.created_at
        &&& self.updated_at == row.updated_at
    }

    /// Why the row is no result request. The type is looked at before the state.
    pub open spec fn rejects(error: ResultRequestRowErrorModel, row: ResultRequestRow) -> bool {
        if ResultType::named(row.result_type@) is None {
            error == ResultRequestRowErrorModel::UnknownType(row.result_type@)
        } else {
            ResultState::named(row.state@) is None && error
                == ResultRequestRowErrorModel::UnknownState(row.state@)
        }
    }
}

impl TryFrom<ResultRequestRow> for ResultRequest {
    type Error = ResultRequestRowError;

    fn try_from(row: ResultRequestRow) -> (r: Result<Self, Self::Error>)
        ensures
            match r {
                Ok(request) => request.decodes(row),
                Err(error) => ResultRequest::rejects(error@, row),
            },
    {
        let result_type = match ResultType::from_str(row.result_type.as_str()) {
            Some(t) => t,
            None => {
                return Err(ResultRequestRowError::UnknownType(row.result_type.clone()));
            },
        };
        let state = match ResultState::from_str(row.state.as_str()) {
            Some(t) => t,
            None => {
                return Err(ResultRequestRowError::UnknownState(row.state.clone()));
            },
        };
        Ok(
            ResultRequest {
                id: row.id,
                job_id: row.job_id,
                result_type,
                params: row.params,
                state,
                error: row.error,
                work_dir: row.work_dir,
                created_at: row.created_at,
                updated_at: row.updated_at,
            },
        )
    }
}

impl vstd::std_specs::convert::TryFromSpecImpl<ResultRequestRow> for ResultRequest {
    open spec fn obeys_try_from_spec() -> bool {
        false
    }

    open spec fn try_from_spec(row: ResultRequestRow) -> Result<Self, Self::Error> {
        arbitrary()
    }
}

/// A request holds what its row holds, column by column.
pub proof fn requests_hold_their_columns(row: ResultRequestRow, request: ResultRequest)
    requires
        request.decodes(row),
    ensures
        request.id == row.id,
        request.job_id == row.job_id,
        request.result_type.name() == row.result_type@,
        text::opt_text(request.params) == text::opt_text(row.params),
        request.state.name() == row.state@,
        text::opt_text(request.error) == text::opt_text(row.error),
        text::opt_text(request.work_dir) == text::opt_text(row.work_dir),
        request.created_at == row.created_at,
        request.updated_at == row.updated_at,
{
}

/// The image of a time series is named after its point, latitude first: two points
/// share a name only where they share both coordinates, as long as the texts of the
/// latitudes are equally long.
pub proof fn points_have_their_own_names(
    lat_a: Seq<char>,
    lon_a: Seq<char>,
    lat_b: Seq<char>,
    lon_b: Seq<char>,
)
    requires
        lat_a.len() == lat_b.len(),
        series_prefix(lat_a, lon_a) == series_prefix(lat_b, lon_b),
    ensures
        lat_a == lat_b,
        lon_a == lon_b,
        series_prefix(lat_a, lon_a) == "timeseries_"@ + lat_a + "_"@ + lon_a + "_"@,
{
    let n = "timeseries_"@.len() as int;
    let m = "_"@.len() as int;
    let x = series_prefix(lat_a, lon_a);
    let y = series_prefix(lat_b, lon_b);
    assert(x.subrange(n, n + lat_a.len()) =~= lat_a);
    assert(y.subrange(n, n + lat_b.len()) =~= lat_b);
    assert(x.len() == y.len());
    assert(x.subrange(n + lat_a.len() + m, x.len() - m) =~= lon_a);
    assert(y.subrange(n + lat_b.len() + m, y.len() - m) =~= lon_b);
}

/// What a request makes is named after what it asks for: the map has a name of its
/// own, a time series is named after its point, the latitude before the longitude, and
/// has no name where the params lack either.
pub proof fn outputs_are_named_after_their_point(request: ResultRequest, params: String)
    requires
        request.params == Some(params),
    ensures
        request.result_type is Velocity ==> request.output_name() == Some("velocity.png"@),
        request.result_type is Timeseries ==> match (
            json::json_value(params@, "lat"@),
            json::json_value(params@, "lon"@),
        ) {
            (Some(lat), Some(lon)) => request.output_name() == Some(
                "timeseries_"@ + lat.text + "_"@ + lon.text + "_"@,
            ),
            _ => request.output_name() is None,
        },
        !(request.result_type is Velocity) && !(request.result_type is Timeseries)
            ==> request.output_name() is None,
{
}

} // verus!
