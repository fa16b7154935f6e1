//! Demo results.
//!
//! Demos are pre-computed InSAR jobs stored under `/sisar/demos/<name>/`
//! with the same directory layout as a normal job's `work_dir`. They are
//! accessible to every authenticated user regardless of tier, and are never
//! recorded in the `jobs` table.
//!
//! When a result request is enqueued for a demo the absolute demo path is
//! stored in `result_requests.work_dir`. The results scheduler uses that
//! column directly and skips the jobs table.
use vstd::prelude::*;

use crate::float64;
use crate::float64::{Number, NumberModel};
use crate::ids::Uuid;
use crate::json;
use crate::json::number_at;
use crate::order;
use crate::order::sort_texts;
use crate::paths;
use crate::paths::{join, join2};
use crate::server::error::{AppError, AppErrorModel};
use crate::shared::queries::{enqueue_result_request, NewResultRequest};
use crate::shared::result;
use crate::shared::result::{OutputFile, ResultRequest, ResultState, ResultType};
use crate::text;
use crate::text::{concat2, concat3, concat4, contains, text_eq};
use crate::time::Timestamp;

verus! {

// ---------------------------------------------------------------------------
// Demo directories
// ---------------------------------------------------------------------------

/// Whether a name could lead out of the directory of the demos.
pub open spec fn leads_astray(name: Seq<char>) -> bool {
    text::contains_text(name, "/"@) || text::contains_text(name, "\\"@) || text::contains_text(
        name,
        ".."@,
    )
}

/// Returns the path to a demo directory below `demos_root`. Names with path
/// separators or parent references are rejected.
pub fn demo_path(demos_root: &str, name: &str) -> (r: Result<String, AppError>)
    ensures
        match r {
            Ok(path) => !leads_astray(name@) && path@ == paths::joined_path(demos_root@, name@),
            Err(error) => leads_astray(name@) && error@ == AppErrorModel::Validation(
                "invalid demo name"@,
            ),
        },
{
    if contains(name, "/") || contains(name, "\\") || contains(name, "..") {
        return Err(AppError::Validation("invalid demo name".to_owned()));
    }
    Ok(join(demos_root, name))
}

/// Returns the path to an existing demo directory, where `is_dir` says whether
/// there is a directory at the path.
pub fn existing_demo(path: String, is_dir: bool) -> (r: Result<String, AppError>)
    ensures
        match r {
            Ok(found) => is_dir && found == path,
            Err(error) => !is_dir && error@ == AppErrorModel::JobNotFound,
        },
{
    if is_dir {
        Ok(path)
    } else {
        Err(AppError::JobNotFound)
    }
}

/// An accepted name leads to a path below the root: the root comes first, and
/// what follows it has no separator of its own and no parent reference.
pub proof fn demo_paths_stay_below_root(root: Seq<char>, name: Seq<char>)
    requires
        !leads_astray(name),
        root.len() > 0,
    ensures
        root.is_prefix_of(paths::joined_path(root, name)),
        name.is_suffix_of(paths::joined_path(root, name)),
        !name.contains('/'),
{
    reveal_strlit("/");
    if name.contains('/') {
        let i = choose|i: int| 0 <= i < name.len() && name[i] == '/';
        assert(name.subrange(i, i + 1) =~= "/"@);
        assert(text::occurs_at(name, "/"@, i));
    }
    if name.len() > 0 {
        assert(name[0] != '/') by {
            if name[0] == '/' {
                assert(name.contains('/'));
            }
        }
    }
    let path = paths::joined_path(root, name);
    assert(path.subrange(0, root.len() as int) =~= root);
    assert(path.subrange(path.len() - name.len(), path.len() as int) =~= name);
}

/// Where the velocity map of a demo lies.
pub fn velocity_path(demo_dir: &str) -> (r: String)
    ensures
        r@ == paths::joined_path(paths::joined_path(demo_dir@, "results"@), "velocity.png"@),
{
    join2(demo_dir, "results", "velocity.png")
}

// ---------------------------------------------------------------------------
// GET /demos
// ---------------------------------------------------------------------------

/// A demo that can be looked at.
#[derive(Debug)]
pub struct DemoEntry {
    pub name: String,
}

/// The answer to `GET /demos`.
#[derive(Debug)]
pub struct ListDemosResponse {
    pub demos: Vec<DemoEntry>,
}

/// An entry of the directory of the demos.
#[derive(Debug)]
pub struct DirectoryEntry {
    /// The file name, where it is text.
    pub name: Option<String>,
    pub is_dir: bool,
    /// Whether its `results/velocity.png` exists.
    pub has_velocity: bool,
}

/// The names of the valid demos among directory entries. A demo is valid when
/// its `results/velocity.png` file exists, indicating the job completed
/// successfully.
pub open spec fn valid_names(entries: Seq<DirectoryEntry>) -> Seq<Seq<char>>
    decreases entries.len(),
{
    if entries.len() == 0 {
        Seq::empty()
    } else {
        let before = valid_names(entries.drop_last());
        let last = entries.last();
        if last.is_dir && last.has_velocity && last.name is Some {
            before.push((last.name->0)@)
        } else {
            before
        }
    }
}

/// The views of a list of demos.
pub open spec fn demo_names(demos: Seq<DemoEntry>) -> Seq<Seq<char>> {
    demos.map_values(|d: DemoEntry| d.name@)
}

/// Lists all valid demos, sorted alphabetically for stable ordering.
pub fn list_demos(entries: &Vec<DirectoryEntry>) -> (r: ListDemosResponse)
    ensures
        order::sorted(demo_names(r.demos@)),
        demo_names(r.demos@).to_multiset() == valid_names(entries@).to_multiset(),
{
    let mut names: Vec<String> = Vec::new();
    let ghost all = entries@;
    assert(text::texts(names@) =~= valid_names(all.take(0)));
    for i in 0..entries.len()
        invariant
            all == entries@,
            text::texts(names@) == valid_names(all.take(i as int)),
    {
        proof {
            assert(all.take(i + 1).drop_last() =~= all.take(i as int));
            assert(all.take(i + 1).last() == all[i as int]);
        }
        let ghost before = names@;
        let entry = &entries[i];
        if entry.is_dir && entry.has_velocity {
            if let Some(name) = &entry.name {
                names.push(name.clone());
                assert(text::texts(names@) =~= text::texts(before).push(name@));
            }
        }
    }
    assert(all.take(entries.len() as int) =~= all);
    let sorted = sort_texts(names);
    let ghost texts = text::texts(sorted@);
    let ghost seq = sorted@;
    let mut demos: Vec<DemoEntry> = Vec::new();
    assert(demo_names(demos@) =~= texts.take(0));
    for name in it: sorted
        invariant
            it.seq() == seq,
            texts == text::texts(seq),
            demo_names(demos@) == texts.take(it.index() as int),
    {
        let ghost before = demos@;
        let ghost n = it.index() as int;
        assert(texts.take(n + 1) =~= texts.take(n).push(name@));
        demos.push(DemoEntry { name });
        assert(demo_names(demos@) =~= demo_names(before).push(demos@[before.len() as int].name@));
    }
    assert(texts.take(texts.len() as int) =~= texts);
    ListDemosResponse { demos }
}

// ---------------------------------------------------------------------------
// POST /demos/:name/results
// ---------------------------------------------------------------------------

/// The body of `POST /demos/:name/results`.
#[derive(Debug)]
pub struct DemoResultRequestBody {
    /// One of: `"velocity"`, `"timeseries"`.
    pub result_type: String,
    /// JSON text of the type-specific parameters.
    /// - `"timeseries"`: an object with the numbers `lat` and `lon`, required.
    /// - `"velocity"`: absent.
    pub params: Option<String>,
}

/// The answer to an accepted request.
#[derive(Debug)]
pub struct EnqueueDemoResultResponse {
    pub result_request_id: Uuid,
    pub state: String,
}

/// What stands in the way of a time series at a point.
pub open spec fn point_error(lat: Option<NumberModel>, lon: Option<NumberModel>) -> Option<
    AppErrorModel,
> {
    match (lat, lon) {
        (Some(lat), Some(lon)) => if !lat.value.within(90) {
            Some(AppErrorModel::Validation("lat must be in [-90, 90]; got "@ + lat.text))
        } else if !lon.value.within(180) {
            Some(AppErrorModel::Validation("lon must be in [-180, 180]; got "@ + lon.text))
        } else {
            None
        },
        _ => Some(
            AppErrorModel::Validation(
                "timeseries params must include numeric 'lat' and 'lon' fields"@,
            ),
        ),
    }
}

/// Validates the point of a time series.
pub fn check_point(lat: &Option<Number>, lon: &Option<Number>) -> (r: Result<(), AppError>)
    ensures
        match r {
            Ok(()) => point_error(float64::opt_number(*lat), float64::opt_number(*lon)) is None,
            Err(error) => point_error(float64::opt_number(*lat), float64::opt_number(*lon)) == Some(
                error@,
            ),
        },
{
    match (lat, lon) {
        (Some(lat), Some(lon)) => {
            if !lat.value.is_latitude() {
                return Err(
                    AppError::Validation(
                        concat2("lat must be in [-90, 90]; got ", lat.text.as_str()),
                    ),
                );
            }
            if !lon.value.is_longitude() {
                return Err(
                    AppError::Validation(
                        concat2("lon must be in [-180, 180]; got ", lon.text.as_str()),
                    ),
                );
            }
            Ok(())
        },
        _ => Err(
            AppError::Validation(
                "timeseries params must include numeric 'lat' and 'lon' fields".to_owned(),
            ),
        ),
    }
}

/// What stands in the way of a request.
pub open spec fn request_error(body: DemoResultRequestBody) -> Option<AppErrorModel> {
    if body.result_type@ == "velocity"@ {
        None
    } else if body.result_type@ == "timeseries"@ {
        match body.params {
            None => Some(
                AppErrorModel::Validation(
                    "timeseries requires params: { \"lat\": <f64>, \"lon\": <f64> }"@,
                ),
            ),
            Some(params) => point_error(
                json::json_value(params@, "lat"@),
                json::json_value(params@, "lon"@),
            ),
        }
    } else {
        Some(
            AppErrorModel::Validation(
                "unknown result_type '"@ + body.result_type@
                    + "' for demos; valid: velocity, timeseries"@,
            ),
        )
    }
}

/// What to do about an accepted request.
#[derive(Debug)]
pub enum DemoPlan {
    /// Serve the file at this path as an image.
    ServeVelocity(String),
    /// Insert a row; it is answered with its identifier and state.
    Enqueue(NewResultRequest),
}

impl DemoPlan {
    /// Whether the plan gives what an accepted request asks for, of the demo at
    /// `demo_dir`.
    pub open spec fn answers(
        self,
        body: DemoResultRequestBody,
        demo_dir: Seq<char>,
        velocity_exists: bool,
    ) -> bool {
        match self {
            DemoPlan::ServeVelocity(path) => {
                &&& requested_type(body) is Velocity
                &&& velocity_exists
                &&& path@ == paths::joined_path(
                    paths::joined_path(demo_dir, "results"@),
                    "velocity.png"@,
                )
            },
            DemoPlan::Enqueue(row) => {
                &&& !(requested_type(body) is Velocity && velocity_exists)
                &&& row.job_id is None
                &&& row.result_type@ == requested_type(body).name()
                &&& row.params == body.params
                &&& row.state@ == ResultState::Queued.name()
                &&& text::opt_text(row.work_dir) == Some(demo_dir)
            },
        }
    }
}

/// The type that a valid request asks for.
pub open spec fn requested_type(body: DemoResultRequestBody) -> ResultType {
    if body.result_type@ == "velocity"@ {
        ResultType::Velocity
    } else {
        ResultType::Timeseries
    }
}

/// Decides on a result generation request for the demo at `demo_dir`, where
/// `velocity_exists` says whether its velocity map is there.
///
/// Velocity fast-path: if `results/velocity.png` already exists in the demo
/// directory it is served immediately without writing to `result_requests`.
///
/// For any other type (or when velocity.png is absent) a `result_requests` row
/// is inserted with `work_dir` set to the demo's absolute path and without a
/// job. The results scheduler picks it up and runs the Docker container without
/// touching the `jobs` table.
pub fn enqueue_demo_result(body: DemoResultRequestBody, demo_dir: &str, velocity_exists: bool) -> (r:
    Result<DemoPlan, AppError>)
    ensures
        match r {
            Err(error) => request_error(body) == Some(error@),
            Ok(plan) => {
                &&& request_error(body) is None
                &&& plan.answers(body, demo_dir@, velocity_exists)
            },
        },
{
    let result_type = if text_eq(body.result_type.as_str(), "velocity") {
        ResultType::Velocity
    } else if text_eq(body.result_type.as_str(), "timeseries") {
        ResultType::Timeseries
    } else {
        return Err(
            AppError::Validation(
                concat3(
                    "unknown result_type '",
                    body.result_type.as_str(),
                    "' for demos; valid: velocity, timeseries",
                ),
            ),
        );
    };
    if result_type == ResultType::Timeseries {
        match &body.params {
            None => {
                return Err(
                    AppError::Validation(
                        "timeseries requires params: { \"lat\": <f64>, \"lon\": <f64> }".to_owned(),
                    ),
                );
            },
            Some(params) => {
                let lat = number_at(params.as_str(), "lat");
                let lon = number_at(params.as_str(), "lon");
                match check_point(&lat, &lon) {
                    Ok(()) => {},
                    Err(error) => {
                        return Err(error);
                    },
                }
            },
        }
    }
    if result_type == ResultType::Velocity && velocity_exists {
        return Ok(DemoPlan::ServeVelocity(velocity_path(demo_dir)));
    }
    Ok(
        DemoPlan::Enqueue(
            enqueue_result_request(None, result_type, body.params, Some(demo_dir.to_owned())),
        ),
    )
}

// ---------------------------------------------------------------------------
// GET /demos/:name/results/:request_id
// ---------------------------------------------------------------------------

/// The state of a demo result request.
#[derive(Debug)]
pub struct DemoResultStatusResponse {
    pub result_request_id: Uuid,
    pub demo_name: String,
    pub result_type: String,
    pub state: String,
    pub error: Option<String>,
    pub created_at: Timestamp,
    pub updated_at: Timestamp,
}

impl DemoResultStatusResponse {
    /// Whether the answer tells the state of a request for the demo of a name.
    pub open spec fn shows(self, request: ResultRequest, name: Seq<char>) -> bool {
        &&& self.result_request_id == request.id
        &&& self.demo_name@ == name
        &&& self.result_type@ == request.result_type.name()
        &&& self.state@ == request.state.name()
        &&& self.error == request.error
        &&& self.created_at == request.created_at
        &&& self.updated_at == request.updated_at
    }
}

/// Verifies that a result request exists and belongs to the demo at `demo_dir`.
pub fn check_demo_request(request: Option<ResultRequest>, demo_dir: &str) -> (r: Result<
    ResultRequest,
    AppError,
>)
    ensures
        match r {
            Ok(found) => request == Some(found) && text::opt_text(found.work_dir) == Some(
                demo_dir@,
            ),
            Err(error) => match request {
                None => error@ == AppErrorModel::ResultNotFound("result request not found"@),
                Some(other) => text::opt_text(other.work_dir) != Some(demo_dir@) && error@
                    == AppErrorModel::ResultNotFound(
                    "result request does not belong to this demo"@,
                ),
            },
        },
{
    match request {
        None => Err(AppError::ResultNotFound("result request not found".to_owned())),
        Some(found) => {
            let belongs = match &found.work_dir {
                Some(dir) => text_eq(dir.as_str(), demo_dir),
                None => false,
            };
            if belongs {
                Ok(found)
            } else {
                Err(
                    AppError::ResultNotFound(
                        "result request does not belong to this demo".to_owned(),
                    ),
                )
            }
        },
    }
}

/// The state of a request that has no file to show: `queued`, `running` or
/// `failed`. There is none for a completed request.
pub fn demo_status(request: ResultRequest, name: String) -> (r: Option<DemoResultStatusResponse>)
    ensures
        match r {
            None => request.state is Completed,
            Some(status) => {
                &&& !(request.state is Completed)
                &&& status.demo_name == name
                &&& status.shows(request, name@)
            },
        },
{
    match request.state {
        ResultState::Completed => None,
        _ => Some(
            DemoResultStatusResponse {
                result_request_id: request.id,
                demo_name: name,
                result_type: request.result_type.as_str().to_owned(),
                state: request.state.as_str().to_owned(),
                error: request.error,
                created_at: request.created_at,
                updated_at: request.updated_at,
            },
        ),
    }
}

/// The file of a completed request and its MIME type, where the results
/// directory of the demo lists `names` and `velocity_exists` says whether the
/// velocity map is there.
pub fn demo_file(
    request: &ResultRequest,
    results_dir: &str,
    velocity_exists: bool,
    names: &Vec<String>,
) -> (r: Result<(OutputFile, &'static str), AppError>)
    ensures
        match r {
            Ok((OutputFile::Fixed(path), mime)) => {
                &&& request.result_type is Velocity
                &&& velocity_exists
                &&& path@ == paths::joined_path(results_dir@, "velocity.png"@)
                &&& mime@ == "image/png"@
            },
            Ok((OutputFile::Listed(k), mime)) => {
                &&& request.result_type is Timeseries
                &&& request.output_name() is Some
                &&& k < names.len()
                &&& result::is_output(names[k as int]@, request.output_name()->0)
                &&& forall|i: int|
                    0 <= i < k ==> !result::is_output(
                        #[trigger] names[i]@,
                        request.output_name()->0,
                    )
                &&& mime@ == "image/png"@
            },
            Err(error) => {
                &&& error@ == AppErrorModel::ResultNotFound(
                    "output file not found for result type '"@ + request.result_type.name()
                        + "' in "@ + results_dir@,
                )
                &&& request.result_type is Velocity ==> !velocity_exists
                &&& request.result_type is Timeseries && request.output_name() is Some
                    ==> forall|i: int|
                    0 <= i < names.len() ==> !result::is_output(
                        #[trigger] names[i]@,
                        request.output_name()->0,
                    )
            },
        },
{
    match request.resolve_output_file(results_dir, velocity_exists, names) {
        Some(file) => {
            let mime = match request.result_type.mime() {
                Some(mime) => mime,
                None => "application/octet-stream",
            };
            Ok((file, mime))
        },
        None => Err(
            AppError::ResultNotFound(
                concat4(
                    "output file not found for result type '",
                    request.result_type.as_str(),
                    "' in ",
                    results_dir,
                ),
            ),
        ),
    }
}

/// A demo is listed exactly where it is a directory with a name and a velocity map.
pub proof fn demos_are_directories_with_a_map(entries: Seq<DirectoryEntry>, name: Seq<char>)
    ensures
        valid_names(entries).contains(name) <==> exists|i: int|
            0 <= i < entries.len() && (#[trigger] entries[i]).is_dir && entries[i].has_velocity
                && text::opt_text(entries[i].name) == Some(name),
    decreases entries.len(),
{
    if entries.len() > 0 {
        let rest = entries.drop_last();
        let top = entries.len() - 1;
        let before = valid_names(rest);
        let all = valid_names(entries);
        demos_are_directories_with_a_map(rest, name);
        if before.contains(name) {
            let i = choose|i: int|
                0 <= i < rest.len() && (#[trigger] rest[i]).is_dir && rest[i].has_velocity
                    && text::opt_text(rest[i].name) == Some(name);
            assert(entries[i] == rest[i]);
            let k = choose|k: int| 0 <= k < before.len() && before[k] == name;
            assert(all[k] == name);
        }
        if all.contains(name) && !before.contains(name) {
            let k = choose|k: int| 0 <= k < all.len() && all[k] == name;
            if k < before.len() {
                assert(before[k] == name);
            }
            assert(entries[top].is_dir);
        }
        if exists|i: int|
            0 <= i < entries.len() && (#[trigger] entries[i]).is_dir && entries[i].has_velocity
                && text::opt_text(entries[i].name) == Some(name) {
            let i = choose|i: int|
                0 <= i < entries.len() && (#[trigger] entries[i]).is_dir && entries[i].has_velocity
                    && text::opt_text(entries[i].name) == Some(name);
            if i < top {
                assert(rest[i] == entries[i]);
            } else {
                assert(all.last() == name);
            }
        }
    }
}

/// A point is accepted exactly where both coordinates are given and each lies within
/// its own bounds: latitudes within 90 degrees, longitudes within 180.
pub proof fn points_lie_on_the_globe(lat: Option<NumberModel>, lon: Option<NumberModel>)
    ensures
        point_error(lat, lon) is None <==> lat is Some && lon is Some && (lat->0).value.within(90)
            && (lon->0).value.within(180),
        point_error(lat, lon) matches Some(error) ==> error is Validation,
{
}

/// A request is accepted exactly where it asks for a velocity map, or for a time
/// series at a point that its parameters give.
pub proof fn accepted_requests_can_be_met(body: DemoResultRequestBody)
    ensures
        request_error(body) is None <==> body.result_type@ == "velocity"@ || (body.result_type@
            == "timeseries"@ && body.params is Some && point_error(
            json::json_value((body.params->0)@, "lat"@),
            json::json_value((body.params->0)@, "lon"@),
        ) is None),
        request_error(body) matches Some(error) ==> error.status() == 400,
{
    reveal_strlit("velocity");
    reveal_strlit("timeseries");
    assert("velocity"@.len() == 8);
    assert("timeseries"@.len() == 10);
}

/// An accepted request is answered with the map of its demo where it asks for that
/// and it is there. In every other case what it asks for is queued as it was asked:
/// the same type, the same parameters, in the directory of the demo and for no job.
pub proof fn demo_requests_are_passed_on(
    plan: DemoPlan,
    body: DemoResultRequestBody,
    demo_dir: Seq<char>,
    velocity_exists: bool,
)
    requires
        request_error(body) is None,
        plan.answers(body, demo_dir, velocity_exists),
    ensures
        plan is ServeVelocity <==> body.result_type@ == "velocity"@ && velocity_exists,
        plan matches DemoPlan::ServeVelocity(path) ==> (demo_dir.len() > 0 && demo_dir.last() != '/'
            ==> path@ == demo_dir + "/results/velocity.png"@),
        plan matches DemoPlan::Enqueue(row) ==> {
            &&& row.job_id is None
            &&& row.result_type@ == body.result_type@
            &&& row.params == body.params
            &&& row.state@ == "queued"@
            &&& row.work_dir is Some && (row.work_dir->0)@ == demo_dir
        },
{
    reveal_strlit("/");
    reveal_strlit("results");
    reveal_strlit("velocity.png");
    reveal_strlit("/results/velocity.png");
    let dir = paths::joined_path(demo_dir, "results"@);
    if demo_dir.len() > 0 && demo_dir.last() != '/' {
        assert(dir == demo_dir + "/"@ + "results"@);
        assert(dir.last() == 's');
        assert(paths::joined_path(dir, "velocity.png"@) =~= demo_dir + "/results/velocity.png"@);
    }
}

/// What is told of a request is true of it, and of no other that differs in it: two
/// requests that are shown alike are alike.
pub proof fn demo_requests_are_shown_as_they_are(
    status: DemoResultStatusResponse,
    a: ResultRequest,
    b: ResultRequest,
    name: Seq<char>,
    other: Seq<char>,
)
    requires
        status.shows(a, name),
    ensures
        status.result_request_id == a.id,
        status.demo_name@ == name,
        ResultType::named(status.result_type@) == Some(a.result_type),
        ResultState::named(status.state@) == Some(a.state),
        status.error == a.error,
        status.created_at == a.created_at,
        status.updated_at == a.updated_at,
        status.shows(b, other) ==> name == other && a.id == b.id && a.result_type == b.result_type
            && a.state == b.state && a.error == b.error,
{
    ResultType::named_is_unique(a.result_type);
    ResultState::named_is_unique(a.state);
    if status.shows(b, other) {
        ResultType::names_differ(a.result_type, b.result_type);
        ResultState::names_differ(a.state, b.state);
    }
}

} // verus!
