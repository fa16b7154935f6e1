//! Domain types shared between the API server and (where relevant) the
//! scheduler.
use vstd::prelude::*;

use crate::float64::{Float64, Number, NumberModel};
use crate::ids::Uuid;
use crate::text::{concat2, concat5};
use crate::time::NaiveDate;

verus! {

// ---------------------------------------------------------------------------
// Errors
// ---------------------------------------------------------------------------

/// Why a number is no coordinate.
#[derive(Debug)]
pub enum CoordinatesError {
    OutOfBoundsLat(Number),
    OutOfBoundsLon(Number),
}

/// What a `CoordinatesError` says.
pub enum CoordinatesErrorModel {
    OutOfBoundsLat(NumberModel),
    OutOfBoundsLon(NumberModel),
}

impl View for CoordinatesError {
    type V = CoordinatesErrorModel;

    open spec fn view(&self) -> CoordinatesErrorModel {
        match *self {
            CoordinatesError::OutOfBoundsLat(n) => CoordinatesErrorModel::OutOfBoundsLat(n@),
            CoordinatesError::OutOfBoundsLon(n) => CoordinatesErrorModel::OutOfBoundsLon(n@),
        }
    }
}

impl CoordinatesErrorModel {
    /// The text that describes the error.
    pub open spec fn text(self) -> Seq<char> {
        match self {
            Self::OutOfBoundsLat(n) => "latitude must be in [-90, 90]; got "@ + n.text,
            Self::OutOfBoundsLon(n) => "longitude must be in [-180, 180]; got "@ + n.text,
        }
    }
}

impl CoordinatesError {
    /// The text that describes the error.
    pub fn message(&self) -> (r: String)
        ensures
            r@ == self@.text(),
    {
        match self {
            Self::OutOfBoundsLat(n) => concat2(
                "latitude must be in [-90, 90]; got ",
                n.text.as_str(),
            ),
            Self::OutOfBoundsLon(n) => concat2(
                "longitude must be in [-180, 180]; got ",
                n.text.as_str(),
            ),
        }
    }
}

/// Why four numbers bound no area.
#[derive(Debug)]
pub enum BoundingBoxError {
    InvalidCoordinates(CoordinatesError),
    InvalidLatSpan { north: Number, south: Number },
    InvalidLonSpan { east: Number, west: Number },
}

/// What a `BoundingBoxError` says.
pub enum BoundingBoxErrorModel {
    InvalidCoordinates(CoordinatesErrorModel),
    InvalidLatSpan { north: NumberModel, south: NumberModel },
    InvalidLonSpan { east: NumberModel, west: NumberModel },
}

impl View for BoundingBoxError {
    type V = BoundingBoxErrorModel;

    open spec fn view(&self) -> BoundingBoxErrorModel {
        match *self {
            BoundingBoxError::InvalidCoordinates(error) => {
                BoundingBoxErrorModel::InvalidCoordinates(error@)
            },
            BoundingBoxError::InvalidLatSpan { north, south } => {
                BoundingBoxErrorModel::InvalidLatSpan { north: north@, south: south@ }
            },
            BoundingBoxError::InvalidLonSpan { east, west } => {
                BoundingBoxErrorModel::InvalidLonSpan { east: east@, west: west@ }
            },
        }
    }
}

impl BoundingBoxErrorModel {
    /// The text that describes the error.
    pub open spec fn text(self) -> Seq<char> {
        match self {
            Self::InvalidCoordinates(error) => "invalid coordinates: "@ + error.text(),
            Self::InvalidLatSpan { north, south } => "north ("@ + north.text
                + ") must be greater than south ("@ + south.text + ")"@,
            Self::InvalidLonSpan { east, west } => "east ("@ + east.text
                + ") must be greater than west ("@ + west.text + ")"@,
        }
    }
}

impl BoundingBoxError {
    /// The text that describes the error.
    pub fn message(&self) -> (r: String)
        ensures
            r@ == self@.text(),
    {
        match self {
            Self::InvalidCoordinates(error) => concat2(
                "invalid coordinates: ",
                error.message().as_str(),
            ),
            Self::InvalidLatSpan { north, south } => concat5(
                "north (",
                north.text.as_str(),
                ") must be greater than south (",
                south.text.as_str(),
                ")",
            ),
            Self::InvalidLonSpan { east, west } => concat5(
                "east (",
                east.text.as_str(),
                ") must be greater than west (",
                west.text.as_str(),
                ")",
            ),
        }
    }
}

/// Why two dates are no time range.
#[derive(Debug, Clone, Copy, PartialEq, Eq, Structural)]
pub enum TimeRangeError {
    FutureDate,
    InvertedBounds,
}

impl TimeRangeError {
    /// The text that describes the error.
    pub open spec fn text(self) -> Seq<char> {
        match self {
            Self::FutureDate => "start and end dates must be today or in the past"@,
            Self::InvertedBounds => "start date must be before or equal to end date"@,
        }
    }

    /// The text that describes the error.
    pub fn message(&self) -> (r: &'static str)
        ensures
            r@ == self.text(),
    {
        match self {
            Self::FutureDate => "start and end dates must be today or in the past",
            Self::InvertedBounds => "start date must be before or equal to end date",
        }
    }
}

/// Why no flight path can be taken.
#[derive(Debug, Clone, Copy, PartialEq, Eq, Structural)]
pub enum FlightPathError {
    InsufficientMaterial,
    InvalidPath,
}

impl FlightPathError {
    /// The text that describes the error.
    pub open spec fn text(self) -> Seq<char> {
        match self {
            Self::InsufficientMaterial => {
                "no images found for the given spatial and temporal bounds"@
            },
            Self::InvalidPath => {
                "the specified path has insufficient coverage for the given bounds; leave path unset for automatic selection"@
            },
        }
    }

    /// The text that describes the error.
    pub fn message(&self) -> (r: &'static str)
        ensures
            r@ == self.text(),
    {
        match self {
            Self::InsufficientMaterial => {
                "no images found for the given spatial and temporal bounds"
            },
            Self::InvalidPath => {
                "the specified path has insufficient coverage for the given bounds; leave path unset for automatic selection"
            },
        }
    }
}

// ---------------------------------------------------------------------------
// Coordinate newtypes
// ---------------------------------------------------------------------------

/// A latitude in degrees.
#[derive(Debug)]
pub struct Latitude(pub Number);

impl Latitude {
    /// Whether the number lies between the poles.
    pub open spec fn valid(self) -> bool {
        self.0.value.within(90)
    }

    /// The number of degrees.
    pub fn value(&self) -> (r: Float64)
        ensures
            r == self.0.value,
    {
        self.0.value
    }
}

impl TryFrom<Number> for Latitude {
    type Error = CoordinatesError;

    fn try_from(value: Number) -> (r: Result<Self, Self::Error>)
        ensures
            match r {
                Ok(lat) => lat.valid() && lat.0@ == value@,
                Err(error) => !value.value.within(90) && error@
                    == CoordinatesErrorModel::OutOfBoundsLat(value@),
            },
    {
        if value.value.is_latitude() {
            Ok(Latitude(value))
        } else {
            Err(CoordinatesError::OutOfBoundsLat(value))
        }
    }
}

impl vstd::std_specs::convert::TryFromSpecImpl<Number> for Latitude {
    open spec fn obeys_try_from_spec() -> bool {
        false
    }

    open spec fn try_from_spec(value: Number) -> Result<Self, Self::Error> {
        arbitrary()
    }
}

/// A longitude in degrees.
#[derive(Debug)]
pub struct Longitude(pub Number);

impl Longitude {
    /// Whether the number lies on the globe.
    pub open spec fn valid(self) -> bool {
        self.0.value.within(180)
    }

    /// The number of degrees.
    pub fn value(&self) -> (r: Float64)
        ensures
            r == self.0.value,
    {
        self.0.value
    }
}

impl TryFrom<Number> for Longitude {
    type Error = CoordinatesError;

    fn try_from(value: Number) -> (r: Result<Self, Self::Error>)
        ensures
            match r {
                Ok(lon) => lon.valid() && lon.0@ == value@,
                Err(error) => !value.value.within(180) && error@
                    == CoordinatesErrorModel::OutOfBoundsLon(value@),
            },
    {
        if value.value.is_longitude() {
            Ok(Longitude(value))
        } else {
            Err(CoordinatesError::OutOfBoundsLon(value))
        }
    }
}

impl vstd::std_specs::convert::TryFromSpecImpl<Number> for Longitude {
    open spec fn obeys_try_from_spec() -> bool {
        false
    }

    open spec fn try_from_spec(value: Number) -> Result<Self, Self::Error> {
        arbitrary()
    }
}

// ---------------------------------------------------------------------------
// BoundingBox
// ---------------------------------------------------------------------------

/// An area between two parallels and two meridians.
#[derive(Debug)]
pub struct BoundingBox {
    pub north: Latitude,
    pub south: Latitude,
    pub east: Longitude,
    pub west: Longitude,
}

/// What is wrong with four bounds: the first coordinate that is none, in the
/// order north, south, east, west; else a span of latitudes that is empty; else
/// one of longitudes.
pub open spec fn bounds_error(
    north: NumberModel,
    south: NumberModel,
    east: NumberModel,
    west: NumberModel,
) -> Option<BoundingBoxErrorModel> {
    if !north.value.within(90) {
        Some(
            BoundingBoxErrorModel::InvalidCoordinates(CoordinatesErrorModel::OutOfBoundsLat(north)),
        )
    } else if !south.value.within(90) {
        Some(
            BoundingBoxErrorModel::InvalidCoordinates(CoordinatesErrorModel::OutOfBoundsLat(south)),
        )
    } else if !east.value.within(180) {
        Some(
            BoundingBoxErrorModel::InvalidCoordinates(CoordinatesErrorModel::OutOfBoundsLon(east)),
        )
    } else if !west.value.within(180) {
        Some(
            BoundingBoxErrorModel::InvalidCoordinates(CoordinatesErrorModel::OutOfBoundsLon(west)),
        )
    } else if north.value.scaled() <= south.value.scaled() {
        Some(BoundingBoxErrorModel::InvalidLatSpan { north, south })
    } else if east.value.scaled() <= west.value.scaled() {
        Some(BoundingBoxErrorModel::InvalidLonSpan { east, west })
    } else {
        None
    }
}

impl BoundingBox {
    /// Whether the bounds are coordinates and enclose an area.
    pub open spec fn valid(self) -> bool {
        &&& self.north.valid()
        &&& self.south.valid()
        &&& self.east.valid()
        &&& self.west.valid()
        &&& self.south.0.value.below(self.north.0.value)
        &&& self.west.0.value.below(self.east.0.value)
    }

    /// Validates and constructs a `BoundingBox` from raw bounds.
    pub fn from_bounds(north: Number, south: Number, east: Number, west: Number) -> (r: Result<
        Self,
        BoundingBoxError,
    >)
        ensures
            match r {
                Ok(bb) => {
                    &&& bounds_error(north@, south@, east@, west@) is None
                    &&& bb.valid()
                    &&& bb.north.0@ == north@
                    &&& bb.south.0@ == south@
                    &&& bb.east.0@ == east@
                    &&& bb.west.0@ == west@
                },
                Err(error) => bounds_error(north@, south@, east@, west@) == Some(error@),
            },
    {
        let north = match Latitude::try_from(north) {
            Ok(n) => n,
            Err(error) => {
                return Err(BoundingBoxError::InvalidCoordinates(error));
            },
        };
        let south = match Latitude::try_from(south) {
            Ok(n) => n,
            Err(error) => {
                return Err(BoundingBoxError::InvalidCoordinates(error));
            },
        };
        let east = match Longitude::try_from(east) {
            Ok(n) => n,
            Err(error) => {
                return Err(BoundingBoxError::InvalidCoordinates(error));
            },
        };
        let west = match Longitude::try_from(west) {
            Ok(n) => n,
            Err(error) => {
                return Err(BoundingBoxError::InvalidCoordinates(error));
            },
        };
        if north.value().le(south.value()) {
            return Err(BoundingBoxError::InvalidLatSpan { north: north.0, south: south.0 });
        }
        if east.value().le(west.value()) {
            return Err(BoundingBoxError::InvalidLonSpan { east: east.0, west: west.0 });
        }
        Ok(BoundingBox { north, south, east, west })
    }

    /// The corners of the area as pairs of longitude and latitude: north-west,
    /// south-west, south-east, north-east.
    pub fn corners(&self) -> (r: [(Float64, Float64); 4])
        ensures
            r@ == seq![
                (self.west.0.value, self.north.0.value),
                (self.west.0.value, self.south.0.value),
                (self.east.0.value, self.south.0.value),
                (self.east.0.value, self.north.0.value),
            ],
    {
        [
            (self.west.value(), self.north.value()),
            (self.west.value(), self.south.value()),
            (self.east.value(), self.south.value()),
            (self.east.value(), self.north.value()),
        ]
    }
}

// ---------------------------------------------------------------------------
// TimeRange
// ---------------------------------------------------------------------------

/// A range of days, both ends included.
#[derive(Debug, Clone, Copy, PartialEq, Eq, Structural)]
pub struct TimeRange {
    pub start: NaiveDate,
    pub end: NaiveDate,
}

impl TimeRange {
    /// Whether the range runs forward and does not reach beyond `today`.
    pub open spec fn valid(self, today: NaiveDate) -> bool {
        self.start.days <= self.end.days <= today.days
    }

    /// What is wrong with two dates on the day `today`. That none lies in the
    /// future is looked at first.
    pub open spec fn error(start: NaiveDate, end: NaiveDate, today: NaiveDate) -> Option<
        TimeRangeError,
    > {
        if start.days > today.days || end.days > today.days {
            Some(TimeRangeError::FutureDate)
        } else if start.days > end.days {
            Some(TimeRangeError::InvertedBounds)
        } else {
            None
        }
    }

    /// Two dates make a range exactly where the first is not after the second and
    /// the second not after today; a single day will do. Dates in the future are told
    /// of as such, whatever their order.
    pub proof fn ranges_run_forward_to_today(start: NaiveDate, end: NaiveDate, today: NaiveDate)
        ensures
            Self::error(start, end, today) is None <==> (TimeRange { start, end }).valid(today),
            (TimeRange { start, end }).valid(today) <==> start.days <= end.days && end.days
                <= today.days,
            Self::error(start, end, today) == Some(TimeRangeError::InvertedBounds) <==> end.days
                < start.days && start.days <= today.days,
            Self::error(start, end, today) == Some(TimeRangeError::FutureDate) <==> !(start.days
                <= today.days && end.days <= today.days),
    {
    }

    /// Validates and constructs a `TimeRange`, on the day `today`.
    pub fn from_bounds(start: NaiveDate, end: NaiveDate, today: NaiveDate) -> (r: Result<
        Self,
        TimeRangeError,
    >)
        ensures
            match r {
                Ok(range) => range == (TimeRange { start, end }) && range.valid(today),
                Err(TimeRangeError::FutureDate) => start.days > today.days || end.days
                    > today.days,
                Err(TimeRangeError::InvertedBounds) => end.days < start.days <= today.days,
            },
            Self::error(start, end, today) == (match r {
                Ok(_) => None,
                Err(error) => Some(error),
            }),
    {
        if start.days > today.days || end.days > today.days {
            return Err(TimeRangeError::FutureDate);
        }
        if start.days > end.days {
            return Err(TimeRangeError::InvertedBounds);
        }
        Ok(TimeRange { start, end })
    }

    /// How many days lie between the two ends.
    pub fn duration_days(&self) -> (r: i64)
        ensures
            r == self.end.days - self.start.days,
    {
        self.end.days as i64 - self.start.days as i64
    }
}

// ---------------------------------------------------------------------------
// Sensor
// ---------------------------------------------------------------------------

/// The instrument whose images are used.
#[derive(Debug, Clone, Copy, PartialEq, Eq, Structural)]
pub enum Sensor {
    S1Burst,
    Nisar,
}

impl Sensor {
    /// The dataset string expected by the ASF search API.
    pub open spec fn dataset(self) -> Seq<char> {
        match self {
            Self::S1Burst => "SLC-BURST"@,
            Self::Nisar => "NISAR"@,
        }
    }

    /// The dataset string expected by the ASF search API.
    pub fn asf_dataset(&self) -> (r: &'static str)
        ensures
            r@ == self.dataset(),
    {
        match self {
            Self::S1Burst => "SLC-BURST",
            Self::Nisar => "NISAR",
        }
    }
}

impl Default for Sensor {
    fn default() -> (r: Self)
        ensures
            r == Self::S1Burst,
    {
        Self::S1Burst
    }
}

// ---------------------------------------------------------------------------
// ProcessingWorkflow
// ---------------------------------------------------------------------------

/// What is made of the images.
#[derive(Debug, Clone, Copy, PartialEq, Eq, Structural)]
pub enum ProcessingWorkflow {
    /// Small Baseline Subset: ISCE2 → MintPy.
    Sbas,
    /// Persistent Scatterer InSAR: ISCE2 → MintPy → MiaplPy.
    PsInsar,
    /// Time-series analysis: ISCE2 → MintPy.
    Timeseries,
}

impl ProcessingWorkflow {
    /// The string stored in the `jobs.workflow` column.
    pub open spec fn name(self) -> Seq<char> {
        match self {
            Self::Sbas => "sbas"@,
            Self::PsInsar => "ps_insar"@,
            Self::Timeseries => "timeseries"@,
        }
    }

    /// The string stored in the `jobs.workflow` column.
    pub fn as_db_str(&self) -> (r: &'static str)
        ensures
            r@ == self.name(),
    {
        match self {
            Self::Sbas => "sbas",
            Self::PsInsar => "ps_insar",
            Self::Timeseries => "timeseries",
        }
    }
}

impl Default for ProcessingWorkflow {
    fn default() -> (r: Self)
        ensures
            r == Self::Sbas,
    {
        Self::Sbas
    }
}

// ---------------------------------------------------------------------------
// JobRequest
// ---------------------------------------------------------------------------

/// The body of a job submission request from an interface client.
///
/// All optional fields are filled with server-side defaults when `None`.
#[derive(Debug)]
pub struct JobRequest {
    // --- Optional processing parameters (filled with defaults if absent) ---
    pub sensor: Option<Sensor>,
    pub workflow: Option<ProcessingWorkflow>,
    /// Explicit relative orbit path number. If `None`, the server selects the
    /// best path automatically from the ASF search results.
    pub path: Option<u32>,
    pub range_looks: Option<u32>,
    pub azimuth_looks: Option<u32>,
    pub connections: Option<u8>,
    /// Optional prepaid code UUID for tier upgrade.
    pub prepaid_code: Option<Uuid>,
    // --- Required: spatial and temporal bounds ---
    pub north: Number,
    pub south: Number,
    pub east: Number,
    pub west: Number,
    pub start: NaiveDate,
    pub end: NaiveDate,
}

// ---------------------------------------------------------------------------
// Laws
// ---------------------------------------------------------------------------

/// Four numbers bound an area exactly where the first two lie within 90 degrees, the
/// last two within 180, south lies below north and west below east. What is told of
/// bounds that do not is true of them.
pub proof fn areas_have_an_inside(
    north: NumberModel,
    south: NumberModel,
    east: NumberModel,
    west: NumberModel,
)
    ensures
        bounds_error(north, south, east, west) is None <==> north.value.within(90)
            && south.value.within(90) && east.value.within(180) && west.value.within(180)
            && south.value.below(north.value) && west.value.below(east.value),
        match bounds_error(north, south, east, west) {
            None => true,
            Some(BoundingBoxErrorModel::InvalidCoordinates(error)) => match error {
                CoordinatesErrorModel::OutOfBoundsLat(n) => !n.value.within(90) && (n == north || n
                    == south),
                CoordinatesErrorModel::OutOfBoundsLon(n) => !n.value.within(180) && (n == east || n
                    == west) && north.value.within(90) && south.value.within(90),
            },
            Some(BoundingBoxErrorModel::InvalidLatSpan { north: n, south: s }) => n == north && s
                == south && !south.value.below(north.value),
            Some(BoundingBoxErrorModel::InvalidLonSpan { east: e, west: w }) => e == east && w
                == west && !west.value.below(east.value) && south.value.below(north.value),
        },
{
}

/// Different workflows have different names, and so have the datasets of different
/// instruments.
pub proof fn type_names_differ(
    a: ProcessingWorkflow,
    b: ProcessingWorkflow,
    x: Sensor,
    y: Sensor,
)
    ensures
        a.name() == b.name() ==> a == b,
        x.dataset() == y.dataset() ==> x == y,
{
    reveal_strlit("sbas");
    reveal_strlit("ps_insar");
    reveal_strlit("timeseries");
    reveal_strlit("SLC-BURST");
    reveal_strlit("NISAR");
    assert("sbas"@.len() == 4);
    assert("ps_insar"@.len() == 8);
    assert("timeseries"@.len() == 10);
    assert("SLC-BURST"@.len() == 9);
    assert("NISAR"@.len() == 5);
}

} // verus!
