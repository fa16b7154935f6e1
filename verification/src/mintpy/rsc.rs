//! The `data.rsc` file: metadata of a Sentinel-1 stack, made from the `IW*.xml`
//! files of ISCE2 without ISCE installed.
use vstd::prelude::*;

use crate::literal;
use crate::literal::writes_float;
use crate::mintpy::xml;
use crate::mintpy::xml::{get_all_props, get_prop, parse_isce_xml_properties, Property, Size};
use crate::number;
use crate::number::{decimal_u64, parse_u32};
use crate::order;
use crate::order::sort_texts;
use crate::split;
use crate::split::{find_from, split_whitespace};
use crate::text;
use crate::text::{chars_of, concat2, concat4, contains, ends_with, starts_with, string_of, text_eq};
use crate::time::Timestamp;

verus! {

// ---------------------------------------------------------------------------
// Errors
// ---------------------------------------------------------------------------

/// Why a file gives no metadata.
#[derive(Debug)]
pub enum MetaError {
    /// The property of this name is missing.
    Missing(&'static str),
    /// The text of a number is none; whether it is empty.
    NotFloat { empty: bool },
    /// The text of a whole number is none; whether it is empty, and whether it
    /// writes a number that is too large.
    NotInteger { empty: bool, large: bool },
    NoStart,
    NoStop,
}

/// What a `MetaError` says.
pub enum MetaErrorModel {
    Missing(Seq<char>),
    NotFloat { empty: bool },
    NotInteger { empty: bool, large: bool },
    NoStart,
    NoStop,
}

impl View for MetaError {
    type V = MetaErrorModel;

    open spec fn view(&self) -> MetaErrorModel {
        match *self {
            MetaError::Missing(name) => MetaErrorModel::Missing(name@),
            MetaError::NotFloat { empty } => MetaErrorModel::NotFloat { empty },
            MetaError::NotInteger { empty, large } => MetaErrorModel::NotInteger { empty, large },
            MetaError::NoStart => MetaErrorModel::NoStart,
            MetaError::NoStop => MetaErrorModel::NoStop,
        }
    }
}

impl MetaErrorModel {
    /// The text that describes the error in the file at `path`.
    pub open spec fn text(self, path: Seq<char>) -> Seq<char> {
        match self {
            Self::Missing(name) => "Missing property '"@ + name + "' in "@ + path,
            Self::NotFloat { empty } => if empty {
                "cannot parse float from empty string"@
            } else {
                "invalid float literal"@
            },
            Self::NotInteger { empty, large } => if empty {
                "cannot parse integer from empty string"@
            } else if large {
                "number too large to fit in target type"@
            } else {
                "invalid digit found in string"@
            },
            Self::NoStart => "No burststartutc in "@ + path,
            Self::NoStop => "No burststoputc in "@ + path,
        }
    }
}

impl MetaError {
    /// The text that describes the error in the file at `path`.
    pub fn message(&self, path: &str) -> (r: String)
        ensures
            r@ == self@.text(path@),
    {
        match self {
            Self::Missing(name) => concat4("Missing property '", name, "' in ", path),
            Self::NotFloat { empty } => if *empty {
                "cannot parse float from empty string".to_owned()
            } else {
                "invalid float literal".to_owned()
            },
            Self::NotInteger { empty, large } => if *empty {
                "cannot parse integer from empty string".to_owned()
            } else if *large {
                "number too large to fit in target type".to_owned()
            } else {
                "invalid digit found in string".to_owned()
            },
            Self::NoStart => concat2("No burststartutc in ", path),
            Self::NoStop => concat2("No burststoputc in ", path),
        }
    }
}

// ---------------------------------------------------------------------------
// Fields
// ---------------------------------------------------------------------------

/// The text of a number.
pub open spec fn float_field(value: Seq<char>) -> Result<Seq<char>, MetaErrorModel> {
    if literal::is_float(value) {
        Ok(value)
    } else {
        Err(MetaErrorModel::NotFloat { empty: value.len() == 0 })
    }
}

fn is_empty(s: &str) -> (r: bool)
    ensures
        r == (s@.len() == 0),
{
    chars_of(s).len() == 0
}

fn read_float(value: String) -> (r: Result<String, MetaError>)
    ensures
        match (r, float_field(value@)) {
            (Ok(text), Ok(expected)) => text@ == expected,
            (Err(error), Err(expected)) => error@ == expected,
            _ => false,
        },
{
    if writes_float(value.as_str()) {
        Ok(value)
    } else {
        Err(MetaError::NotFloat { empty: is_empty(value.as_str()) })
    }
}

/// The number that a text writes.
pub open spec fn integer_field(value: Seq<char>) -> Result<u32, MetaErrorModel> {
    match number::parsed_integer(value, false, 0, u32::MAX as int) {
        Some(n) => Ok(n as u32),
        None => Err(
            MetaErrorModel::NotInteger {
                empty: value.len() == 0,
                large: number::integer_of(value, false) is Some,
            },
        ),
    }
}

/// Whether a text is made of digits behind an optional plus sign.
fn writes_integer(s: &str) -> (r: bool)
    ensures
        r == (number::integer_of(s@, false) is Some),
{
    let v = chars_of(s);
    let n: usize = v.len();
    let from: usize = if n > 0 && v[0] == '+' {
        1
    } else {
        0
    };
    let ghost body = if s@.len() > 0 && s@[0] == '+' {
        s@.drop_first()
    } else {
        s@
    };
    assert(v@.skip(from as int) =~= body);
    if from == n {
        return false;
    }
    for i in from..n
        invariant
            v@ == s@,
            n == v.len(),
            from < n,
            body == v@.skip(from as int),
            body == (if s@.len() > 0 && s@[0] == '+' {
                s@.drop_first()
            } else {
                s@
            }),
            forall|j: int| 0 <= j < i - from ==> number::is_digit(#[trigger] body[j]),
    {
        assert(body[i - from] == v@[i as int]);
        if !('0' <= v[i] && v[i] <= '9') {
            assert(!number::is_digit(body[i - from]));
            return false;
        }
    }
    assert(number::all_digits(body));
    true
}

fn read_integer(value: &str) -> (r: Result<u32, MetaError>)
    ensures
        match (r, integer_field(value@)) {
            (Ok(n), Ok(expected)) => n == expected,
            (Err(error), Err(expected)) => error@ == expected,
            _ => false,
        },
{
    match parse_u32(value) {
        Some(n) => Ok(n),
        None => Err(
            MetaError::NotInteger { empty: is_empty(value), large: writes_integer(value) },
        ),
    }
}

/// The first value of a required property.
pub open spec fn required(props: Seq<xml::PropertyModel>, name: Seq<char>) -> Result<
    Seq<char>,
    MetaErrorModel,
> {
    match xml::first_value(props, name) {
        Some(value) => Ok(value),
        None => Err(MetaErrorModel::Missing(name)),
    }
}

fn require(props: &Vec<Property>, name: &'static str) -> (r: Result<String, MetaError>)
    ensures
        match (r, required(xml::models(props@), name@)) {
            (Ok(value), Ok(expected)) => value@ == expected,
            (Err(error), Err(expected)) => error@ == expected,
            _ => false,
        },
{
    match get_prop(props, name) {
        Some(value) => Ok(value),
        None => Err(MetaError::Missing(name)),
    }
}

/// A required property that holds a number.
pub open spec fn required_float(props: Seq<xml::PropertyModel>, name: Seq<char>) -> Result<
    Seq<char>,
    MetaErrorModel,
> {
    match required(props, name) {
        Ok(value) => float_field(value),
        Err(error) => Err(error),
    }
}

fn require_float(props: &Vec<Property>, name: &'static str) -> (r: Result<String, MetaError>)
    ensures
        match (r, required_float(xml::models(props@), name@)) {
            (Ok(value), Ok(expected)) => value@ == expected,
            (Err(error), Err(expected)) => error@ == expected,
            _ => false,
        },
{
    match require(props, name) {
        Ok(value) => read_float(value),
        Err(error) => Err(error),
    }
}

/// A required property that holds a whole number.
pub open spec fn required_integer(props: Seq<xml::PropertyModel>, name: Seq<char>) -> Result<
    u32,
    MetaErrorModel,
> {
    match required(props, name) {
        Ok(value) => integer_field(value),
        Err(error) => Err(error),
    }
}

fn require_integer(props: &Vec<Property>, name: &'static str) -> (r: Result<u32, MetaError>)
    ensures
        match (r, required_integer(xml::models(props@), name@)) {
            (Ok(value), Ok(expected)) => value == expected,
            (Err(error), Err(expected)) => error@ == expected,
            _ => false,
        },
{
    match require(props, name) {
        Ok(value) => read_integer(value.as_str()),
        Err(error) => Err(error),
    }
}

// ---------------------------------------------------------------------------
// IW*.xml
// ---------------------------------------------------------------------------

/// Metadata extracted from one IW*.xml file. Numbers are kept as the texts that
/// write them.
#[derive(Debug)]
pub struct IwMeta {
    pub swath_number: u32,
    /// Starting range of the first burst (m).
    pub starting_range: String,
    /// Radar wavelength (m).
    pub radar_wavelength: String,
    /// Single-look range pixel size (m).
    pub range_pixel_size: String,
    /// Azimuth time interval (s).
    pub azimuth_time_interval: String,
    /// ASCENDING / DESCENDING
    pub pass_direction: String,
    pub polarization: String,
    pub orbit_number: u32,
    pub track_number: u32,
    pub spacecraft_name: String,
    /// Start of the first burst.
    pub start_utc: String,
    /// End of the last burst.
    pub stop_utc: String,
    /// Pulse repetition frequency (Hz).
    pub prf: String,
}

/// What an `IwMeta` says.
#[verifier::ext_equal]
pub struct IwModel {
    pub swath_number: u32,
    pub starting_range: Seq<char>,
    pub radar_wavelength: Seq<char>,
    pub range_pixel_size: Seq<char>,
    pub azimuth_time_interval: Seq<char>,
    pub pass_direction: Seq<char>,
    pub polarization: Seq<char>,
    pub orbit_number: u32,
    pub track_number: u32,
    pub spacecraft_name: Seq<char>,
    pub start_utc: Seq<char>,
    pub stop_utc: Seq<char>,
    pub prf: Seq<char>,
}

impl View for IwMeta {
    type V = IwModel;

    open spec fn view(&self) -> IwModel {
        IwModel {
            swath_number: self.swath_number,
            starting_range: self.starting_range@,
            radar_wavelength: self.radar_wavelength@,
            range_pixel_size: self.range_pixel_size@,
            azimuth_time_interval: self.azimuth_time_interval@,
            pass_direction: self.pass_direction@,
            polarization: self.polarization@,
            orbit_number: self.orbit_number,
            track_number: self.track_number,
            spacecraft_name: self.spacecraft_name@,
            start_utc: self.start_utc@,
            stop_utc: self.stop_utc@,
            prf: self.prf@,
        }
    }
}

/// The first error among the required fields of a file, in the order in which
/// they are looked at.
pub open spec fn iw_error(props: Seq<xml::PropertyModel>) -> Option<MetaErrorModel> {
    if let Err(error) = required_float(props, "startingrange"@) {
        Some(error)
    } else if let Err(error) = required_float(props, "radarwavelength"@) {
        Some(error)
    } else if let Err(error) = required_float(props, "rangepixelsize"@) {
        Some(error)
    } else if let Err(error) = required_float(props, "azimuthtimeinterval"@) {
        Some(error)
    } else if let Err(error) = required_float(props, "pulserepetitionfrequency"@) {
        Some(error)
    } else if let Err(error) = required_integer(props, "swathnumber"@) {
        Some(error)
    } else if let Err(error) = required_integer(props, "orbitnumber"@) {
        Some(error)
    } else if let Err(error) = required_integer(props, "tracknumber"@) {
        Some(error)
    } else if let Err(error) = required(props, "passdirection"@) {
        Some(error)
    } else if let Err(error) = required(props, "polarization"@) {
        Some(error)
    } else if let Err(error) = required(props, "spacecraftname"@) {
        Some(error)
    } else if xml::values_of(props, "burststartutc"@).len() == 0 {
        Some(MetaErrorModel::NoStart)
    } else if xml::values_of(props, "burststoputc"@).len() == 0 {
        Some(MetaErrorModel::NoStop)
    } else {
        None
    }
}

/// The metadata of a file without errors, with the pass direction and the
/// polarization in upper case.
pub open spec fn iw_model(props: Seq<xml::PropertyModel>) -> IwModel {
    let written = written_model(props);
    IwModel {
        pass_direction: text::upper_text(written.pass_direction),
        polarization: text::upper_text(written.polarization),
        ..written
    }
}

/// The metadata of a file without errors, as written: the first occurrence of
/// each field, which is that of the first burst, and the end of the last burst.
pub open spec fn written_model(props: Seq<xml::PropertyModel>) -> IwModel {
    IwModel {
        swath_number: required_integer(props, "swathnumber"@)->Ok_0,
        starting_range: required(props, "startingrange"@)->Ok_0,
        radar_wavelength: required(props, "radarwavelength"@)->Ok_0,
        range_pixel_size: required(props, "rangepixelsize"@)->Ok_0,
        azimuth_time_interval: required(props, "azimuthtimeinterval"@)->Ok_0,
        pass_direction: required(props, "passdirection"@)->Ok_0,
        polarization: required(props, "polarization"@)->Ok_0,
        orbit_number: required_integer(props, "orbitnumber"@)->Ok_0,
        track_number: required_integer(props, "tracknumber"@)->Ok_0,
        spacecraft_name: required(props, "spacecraftname"@)->Ok_0,
        start_utc: xml::values_of(props, "burststartutc"@)[0],
        stop_utc: xml::values_of(props, "burststoputc"@).last(),
        prf: required(props, "pulserepetitionfrequency"@)->Ok_0,
    }
}

/// Reads the metadata of one IW*.xml file from its text.
pub fn parse_iw_xml(xml_text: &str) -> (r: Result<IwMeta, MetaError>)
    ensures
        match r {
            Ok(meta) => iw_error(xml::properties(xml_text@)) is None && meta@ == iw_model(
                xml::properties(xml_text@),
            ),
            Err(error) => iw_error(xml::properties(xml_text@)) == Some(error@),
        },
{
    let props = parse_isce_xml_properties(xml_text);
    match read_iw_props(&props) {
        Ok(meta) => {
            let pass_direction = meta.pass_direction.as_str().to_uppercase();
            let polarization = meta.polarization.as_str().to_uppercase();
            Ok(IwMeta { pass_direction, polarization, ..meta })
        },
        Err(error) => Err(error),
    }
}

/// Reads the metadata of one IW*.xml file, as written, from its properties,
/// named in lower case.
pub fn read_iw_props(props: &Vec<Property>) -> (r: Result<IwMeta, MetaError>)
    ensures
        match r {
            Ok(meta) => iw_error(xml::models(props@)) is None && meta@ == written_model(
                xml::models(props@),
            ),
            Err(error) => iw_error(xml::models(props@)) == Some(error@),
        },
{
    let starting_range = match require_float(props, "startingrange") {
        Ok(value) => value,
        Err(error) => {
            return Err(error);
        },
    };
    let radar_wavelength = match require_float(props, "radarwavelength") {
        Ok(value) => value,
        Err(error) => {
            return Err(error);
        },
    };
    let range_pixel_size = match require_float(props, "rangepixelsize") {
        Ok(value) => value,
        Err(error) => {
            return Err(error);
        },
    };
    let azimuth_time_interval = match require_float(props, "azimuthtimeinterval") {
        Ok(value) => value,
        Err(error) => {
            return Err(error);
        },
    };
    let prf = match require_float(props, "pulserepetitionfrequency") {
        Ok(value) => value,
        Err(error) => {
            return Err(error);
        },
    };
    let swath_number: u32 = match require_integer(props, "swathnumber") {
        Ok(value) => value,
        Err(error) => {
            return Err(error);
        },
    };
    let orbit_number: u32 = match require_integer(props, "orbitnumber") {
        Ok(value) => value,
        Err(error) => {
            return Err(error);
        },
    };
    let track_number: u32 = match require_integer(props, "tracknumber") {
        Ok(value) => value,
        Err(error) => {
            return Err(error);
        },
    };
    let pass_direction = match require(props, "passdirection") {
        Ok(value) => value,
        Err(error) => {
            return Err(error);
        },
    };
    let polarization = match require(props, "polarization") {
        Ok(value) => value,
        Err(error) => {
            return Err(error);
        },
    };
    let spacecraft_name = match require(props, "spacecraftname") {
        Ok(value) => value,
        Err(error) => {
            return Err(error);
        },
    };
    let starts = get_all_props(props, "burststartutc");
    let stops = get_all_props(props, "burststoputc");
    if starts.len() == 0 {
        return Err(MetaError::NoStart);
    }
    if stops.len() == 0 {
        return Err(MetaError::NoStop);
    }
    let start_utc = starts[0].clone();
    let stop_utc = stops[stops.len() - 1].clone();
    proof {
        assert(text::texts(starts@)[0] == start_utc@);
        assert(text::texts(stops@).last() == stop_utc@);
    }
    Ok(
        IwMeta {
            swath_number,
            starting_range,
            radar_wavelength,
            range_pixel_size,
            azimuth_time_interval,
            pass_direction,
            polarization,
            orbit_number,
            track_number,
            spacecraft_name,
            start_utc,
            stop_utc,
            prf,
        },
    )
}

// ---------------------------------------------------------------------------
// Files
// ---------------------------------------------------------------------------

/// Whether a name begins and ends as a pattern says, with at least one character
/// between.
pub open spec fn matches_pattern(name: Seq<char>, prefix: Seq<char>, suffix: Seq<char>) -> bool {
    prefix.is_prefix_of(name) && suffix.is_suffix_of(name) && name.len() > prefix.len()
        + suffix.len()
}

/// What stands before and behind the wildcard of a pattern. A pattern without
/// one is all prefix.
pub open spec fn pattern_ends(pattern: Seq<char>) -> (Seq<char>, Seq<char>) {
    let star = split::until(pattern, '*') as int;
    if star < pattern.len() {
        (pattern.take(star), pattern.skip(star + 1))
    } else {
        (pattern, Seq::empty())
    }
}

/// The names that match a pattern.
pub open spec fn matching(names: Seq<Seq<char>>, pattern: Seq<char>) -> Seq<Seq<char>>
    decreases names.len(),
{
    if names.len() == 0 {
        Seq::empty()
    } else {
        let before = matching(names.drop_last(), pattern);
        let (prefix, suffix) = pattern_ends(pattern);
        if matches_pattern(names.last(), prefix, suffix) {
            before.push(names.last())
        } else {
            before
        }
    }
}

/// Return the names that match the simple glob `pattern` (only a single `*`
/// wildcard is supported, e.g. "IW*.xml").
pub fn glob_local(names: &Vec<String>, pattern: &str) -> (r: Vec<String>)
    ensures
        text::texts(r@) == matching(text::texts(names@), pattern@),
{
    let p = chars_of(pattern);
    assert(p@.skip(0) =~= p@);
    let star: usize = find_from(&p, 0, '*');
    let prefix = string_of(&p, 0, star);
    let suffix = if star < p.len() {
        string_of(&p, star + 1, p.len())
    } else {
        String::new()
    };
    proof {
        assert(prefix@ =~= pattern_ends(pattern@).0);
        assert(suffix@ =~= pattern_ends(pattern@).1);
    }
    let low: usize = chars_of(prefix.as_str()).len();
    let high: usize = chars_of(suffix.as_str()).len();
    let mut out: Vec<String> = Vec::new();
    let ghost all = text::texts(names@);
    assert(text::texts(out@) =~= Seq::<Seq<char>>::empty());
    for i in 0..names.len()
        invariant
            all == text::texts(names@),
            prefix@ == pattern_ends(pattern@).0,
            suffix@ == pattern_ends(pattern@).1,
            low == prefix@.len(),
            high == suffix@.len(),
            text::texts(out@) == matching(all.take(i as int), pattern@),
    {
        proof {
            assert(all.take(i + 1).drop_last() =~= all.take(i as int));
            assert(all.take(i + 1).last() == names[i as int]@);
        }
        let ghost before = out@;
        let name = names[i].as_str();
        let len: usize = chars_of(name).len();
        if starts_with(name, prefix.as_str()) && ends_with(name, suffix.as_str()) && len >= low
            && len - low > high {
            out.push(names[i].clone());
            assert(text::texts(out@) =~= text::texts(before).push(name@));
        }
    }
    assert(all.take(names.len() as int) =~= all);
    out
}

/// The IW*.xml files among the names of the reference directory, sorted by name
/// (IW1 < IW2 < IW3). There has to be one.
pub fn iw_files(names: &Vec<String>, reference_dir: &str) -> (r: Result<Vec<String>, String>)
    ensures
        ({
            let found = matching(text::texts(names@), "IW*.xml"@);
            match r {
                Ok(files) => {
                    &&& found.len() > 0
                    &&& order::sorted(text::texts(files@))
                    &&& text::texts(files@).to_multiset() == found.to_multiset()
                },
                Err(message) => found.len() == 0 && message@ == "No IW*.xml files found in "@
                    + reference_dir@,
            }
        }),
{
    let files = glob_local(names, "IW*.xml");
    if files.len() == 0 {
        return Err(concat2("No IW*.xml files found in ", reference_dir));
    }
    Ok(sort_texts(files))
}

/// Whether a file is no newer than another. A time that could not be had counts
/// as newer.
pub open spec fn not_newer(file: Option<Timestamp>, than: Timestamp) -> bool {
    match file {
        Some(time) => !than.precedes(time),
        None => false,
    }
}

/// Whether `data.rsc` exists and is no older than any of the files that it is
/// made from (idempotent re-runs).
pub fn is_up_to_date(rsc: Option<Timestamp>, files: &Vec<Option<Timestamp>>) -> (r: bool)
    ensures
        r == (rsc is Some && forall|i: int|
            0 <= i < files.len() ==> not_newer(#[trigger] files[i], rsc->0)),
{
    match rsc {
        None => false,
        Some(made) => {
            for i in 0..files.len()
                invariant
                    rsc == Some(made),
                    forall|j: int| 0 <= j < i ==> not_newer(#[trigger] files[j], made),
            {
                let older = match &files[i] {
                    Some(time) => !made.before(time),
                    None => false,
                };
                if !older {
                    assert(!not_newer(files[i as int], made));
                    return false;
                }
            }
            true
        },
    }
}

// ---------------------------------------------------------------------------
// Swaths
// ---------------------------------------------------------------------------

/// How many of the first swaths have a number of at most `n`.
pub open spec fn place_for(metas: Seq<IwMeta>, n: u32) -> int
    decreases metas.len(),
{
    if metas.len() == 0 {
        0
    } else if metas[0].swath_number <= n {
        1 + place_for(metas.drop_first(), n)
    } else {
        0
    }
}

/// The swaths by number; those of equal number stay in the order given.
pub open spec fn by_swath(metas: Seq<IwMeta>) -> Seq<IwMeta>
    decreases metas.len(),
{
    if metas.len() == 0 {
        Seq::empty()
    } else {
        let before = by_swath(metas.drop_last());
        before.insert(place_for(before, metas.last().swath_number), metas.last())
    }
}

proof fn lemma_place(metas: Seq<IwMeta>, n: u32, k: int)
    requires
        0 <= k <= metas.len(),
        forall|i: int| 0 <= i < k ==> (#[trigger] metas[i]).swath_number <= n,
        k < metas.len() ==> metas[k].swath_number > n,
    ensures
        place_for(metas, n) == k,
    decreases metas.len(),
{
    if k > 0 {
        let rest = metas.drop_first();
        assert forall|i: int| 0 <= i < k - 1 implies (#[trigger] rest[i]).swath_number <= n by {
            assert(metas[i + 1].swath_number <= n);
        }
        assert(metas[0].swath_number <= n);
        lemma_place(rest, n, k - 1);
    }
}

/// Sorts by swath number.
pub fn sort_by_swath(metas: Vec<IwMeta>) -> (r: Vec<IwMeta>)
    ensures
        r@ == by_swath(metas@),
        r.len() == metas.len(),
{
    let ghost all = metas@;
    let mut out: Vec<IwMeta> = Vec::new();
    assert(out@ =~= by_swath(all.take(0)));
    for meta in it: metas
        invariant
            it.seq() == all,
            out@ == by_swath(all.take(it.index() as int)),
            out.len() == it.index(),
    {
        let ghost n = it.index() as int;
        let mut k: usize = 0;
        while k < out.len() && out[k].swath_number <= meta.swath_number
            invariant
                k <= out.len(),
                forall|i: int|
                    0 <= i < k ==> (#[trigger] out[i]).swath_number <= meta.swath_number,
            ensures
                k < out.len() ==> out[k as int].swath_number > meta.swath_number,
            decreases out.len() - k,
        {
            k = k + 1;
        }
        proof {
            lemma_place(out@, meta.swath_number, k as int);
            assert(all.take(n + 1).drop_last() =~= all.take(n));
            assert(all.take(n + 1).last() == meta);
        }
        out.insert(k, meta);
    }
    assert(all.take(all.len() as int) =~= all);
    out
}

proof fn lemma_place_bound(metas: Seq<IwMeta>, n: u32)
    ensures
        0 <= place_for(metas, n) <= metas.len(),
        forall|i: int|
            0 <= i < place_for(metas, n) ==> (#[trigger] metas[i]).swath_number <= n,
        place_for(metas, n) < metas.len() ==> metas[place_for(metas, n)].swath_number > n,
    decreases metas.len(),
{
    if metas.len() > 0 && metas[0].swath_number <= n {
        let rest = metas.drop_first();
        lemma_place_bound(rest, n);
        assert forall|i: int| 0 <= i < place_for(metas, n) implies (#[trigger] metas[i]).swath_number
            <= n by {
            if i > 0 {
                assert(rest[i - 1].swath_number <= n);
            }
        }
    }
}

/// The swaths come out in order of their numbers, and none is lost.
pub proof fn swaths_are_sorted(metas: Seq<IwMeta>)
    ensures
        by_swath(metas).len() == metas.len(),
        by_swath(metas).to_multiset() == metas.to_multiset(),
        forall|i: int, j: int|
            0 <= i <= j < metas.len() ==> (#[trigger] by_swath(metas)[i]).swath_number <= (
            #[trigger] by_swath(metas)[j]).swath_number,
    decreases metas.len(),
{
    let all = by_swath(metas);
    if metas.len() > 0 {
        let rest = metas.drop_last();
        let before = by_swath(rest);
        let last = metas.last();
        let k = place_for(before, last.swath_number);
        swaths_are_sorted(rest);
        lemma_place_bound(before, last.swath_number);
        assert(all == before.insert(k, last));
        assert forall|i: int, j: int| 0 <= i <= j < metas.len() implies (
        #[trigger] all[i]).swath_number <= (#[trigger] all[j]).swath_number by {
            let x = if i < k {
                i
            } else {
                i - 1
            };
            let y = if j < k {
                j
            } else {
                j - 1
            };
            if i != k && j != k {
                assert(before[x].swath_number <= before[y].swath_number);
            } else if i == k && j != k {
                assert(before[k].swath_number <= before[y].swath_number);
            } else if i != k && j == k {
                assert(before[x].swath_number <= last.swath_number);
            }
        }
        all.to_multiset_ensures();
        rest.to_multiset_ensures();
        assert(all.remove(k) =~= before);
        assert(all[k] == last);
        assert(rest.push(last) =~= metas);
        assert(all.to_multiset() =~= before.to_multiset().insert(last));
    } else {
        assert(all =~= metas);
    }
}

/// The numbers of the swaths, one after the other, e.g. "123" for all three.
pub open spec fn swath_digits(metas: Seq<IwMeta>) -> Seq<char>
    decreases metas.len(),
{
    if metas.len() == 0 {
        Seq::empty()
    } else {
        swath_digits(metas.drop_last()) + number::decimal(metas.last().swath_number as int)
    }
}

fn beam_swath(metas: &Vec<IwMeta>) -> (r: String)
    ensures
        r@ == swath_digits(metas@),
{
    let mut out = String::new();
    let ghost all = metas@;
    for i in 0..metas.len()
        invariant
            all == metas@,
            out@ == swath_digits(all.take(i as int)),
    {
        assert(all.take(i + 1).drop_last() =~= all.take(i as int));
        out.append(decimal_u64(metas[i].swath_number as u64).as_str());
    }
    assert(all.take(metas.len() as int) =~= all);
    out
}

// ---------------------------------------------------------------------------
// Times
// ---------------------------------------------------------------------------

/// The texts of hours, minutes and seconds.
#[derive(Debug)]
pub struct UtcParts {
    pub hours: String,
    pub minutes: String,
    pub seconds: String,
}

/// Why a text gives no time of day.
#[derive(Debug)]
pub enum UtcError {
    /// The text has no second word.
    NoTime(String),
    MissingMinutes,
    MissingSeconds,
    /// A part writes no number; whether it is empty.
    NotFloat { empty: bool },
}

/// What a `UtcError` says.
pub enum UtcErrorModel {
    NoTime(Seq<char>),
    MissingMinutes,
    MissingSeconds,
    NotFloat { empty: bool },
}

impl View for UtcError {
    type V = UtcErrorModel;

    open spec fn view(&self) -> UtcErrorModel {
        match *self {
            UtcError::NoTime(s) => UtcErrorModel::NoTime(s@),
            UtcError::MissingMinutes => UtcErrorModel::MissingMinutes,
            UtcError::MissingSeconds => UtcErrorModel::MissingSeconds,
            UtcError::NotFloat { empty } => UtcErrorModel::NotFloat { empty },
        }
    }
}

impl UtcErrorModel {
    /// The text that describes the error.
    pub open spec fn text(self) -> Seq<char> {
        match self {
            Self::NoTime(dt) => "No time part in datetime: "@ + dt,
            Self::MissingMinutes => "Missing minutes"@,
            Self::MissingSeconds => "Missing seconds"@,
            Self::NotFloat { empty } => if empty {
                "cannot parse float from empty string"@
            } else {
                "invalid float literal"@
            },
        }
    }
}

impl UtcError {
    /// The text that describes the error.
    pub fn message(&self) -> (r: String)
        ensures
            r@ == self@.text(),
    {
        match self {
            Self::NoTime(dt) => concat2("No time part in datetime: ", dt.as_str()),
            Self::MissingMinutes => "Missing minutes".to_owned(),
            Self::MissingSeconds => "Missing seconds".to_owned(),
            Self::NotFloat { empty } => if *empty {
                "cannot parse float from empty string".to_owned()
            } else {
                "invalid float literal".to_owned()
            },
        }
    }
}

/// What stands before the first colon of a text.
pub open spec fn colon_head(s: Seq<char>) -> Seq<char> {
    s.take(split::until(s, ':') as int)
}

/// What stands behind the first colon of a text, if it has one.
pub open spec fn colon_tail(s: Seq<char>) -> Option<Seq<char>> {
    let k = split::until(s, ':') as int;
    if k < s.len() {
        Some(s.skip(k + 1))
    } else {
        None
    }
}

/// The parts of the time of a text like "2016-01-17 23:26:16.725734": the second
/// word, cut at its first two colons. Each has to write a number; the first
/// fault counts.
pub open spec fn time_parts(dt: Seq<char>) -> Result<
    (Seq<char>, Seq<char>, Seq<char>),
    UtcErrorModel,
> {
    let words = split::words(dt);
    if words.len() < 2 {
        Err(UtcErrorModel::NoTime(dt))
    } else {
        let hours = colon_head(words[1]);
        if !literal::is_float(hours) {
            Err(UtcErrorModel::NotFloat { empty: hours.len() == 0 })
        } else {
            match colon_tail(words[1]) {
                None => Err(UtcErrorModel::MissingMinutes),
                Some(rest) => {
                    let minutes = colon_head(rest);
                    if !literal::is_float(minutes) {
                        Err(UtcErrorModel::NotFloat { empty: minutes.len() == 0 })
                    } else {
                        match colon_tail(rest) {
                            None => Err(UtcErrorModel::MissingSeconds),
                            Some(seconds) => if !literal::is_float(seconds) {
                                Err(UtcErrorModel::NotFloat { empty: seconds.len() == 0 })
                            } else {
                                Ok((hours, minutes, seconds))
                            },
                        }
                    }
                },
            }
        }
    }
}

/// A text cut at its first colon.
fn cut(s: &str) -> (r: (String, Option<String>))
    ensures
        r.0@ == colon_head(s@),
        text::opt_text(r.1) == colon_tail(s@),
{
    let v = chars_of(s);
    assert(v@.skip(0) =~= v@);
    let k: usize = find_from(&v, 0, ':');
    let head = string_of(&v, 0, k);
    assert(head@ =~= colon_head(s@));
    if k < v.len() {
        let tail = string_of(&v, k + 1, v.len());
        assert(tail@ =~= s@.skip(k + 1));
        (head, Some(tail))
    } else {
        (head, None)
    }
}

fn check_float(s: &str) -> (r: Result<(), UtcError>)
    ensures
        match r {
            Ok(()) => literal::is_float(s@),
            Err(error) => !literal::is_float(s@) && error@ == (UtcErrorModel::NotFloat {
                empty: s@.len() == 0,
            }),
        },
{
    if writes_float(s) {
        Ok(())
    } else {
        Err(UtcError::NotFloat { empty: is_empty(s) })
    }
}

/// Parse a datetime string like "2016-01-17 23:26:16.725734" into the parts of
/// its time of day.
pub fn utc_to_seconds(dt: &str) -> (r: Result<UtcParts, UtcError>)
    ensures
        match (r, time_parts(dt@)) {
            (Ok(parts), Ok((hours, minutes, seconds))) => {
                &&& parts.hours@ == hours
                &&& parts.minutes@ == minutes
                &&& parts.seconds@ == seconds
            },
            (Err(error), Err(expected)) => error@ == expected,
            _ => false,
        },
{
    let words = split_whitespace(dt);
    if words.len() < 2 {
        return Err(UtcError::NoTime(dt.to_owned()));
    }
    assert(text::texts(words@)[1] == words[1]@);
    let (hours, rest) = cut(words[1].as_str());
    match check_float(hours.as_str()) {
        Ok(()) => {},
        Err(error) => {
            return Err(error);
        },
    }
    let rest = match rest {
        Some(rest) => rest,
        None => {
            return Err(UtcError::MissingMinutes);
        },
    };
    let (minutes, rest) = cut(rest.as_str());
    match check_float(minutes.as_str()) {
        Ok(()) => {},
        Err(error) => {
            return Err(error);
        },
    }
    let seconds = match rest {
        Some(rest) => rest,
        None => {
            return Err(UtcError::MissingSeconds);
        },
    };
    match check_float(seconds.as_str()) {
        Ok(()) => Ok(UtcParts { hours, minutes, seconds }),
        Err(error) => Err(error),
    }
}

// ---------------------------------------------------------------------------
// Looks
// ---------------------------------------------------------------------------

/// The number of looks in azimuth and in range.
#[derive(Debug, Clone, Copy, PartialEq, Eq, Structural)]
pub struct Looks {
    pub azimuth: u32,
    pub range: u32,
}

/// How often a multilooked length fits into a full one, at least once.
pub open spec fn ratio(full: u32, multilooked: u32) -> int {
    if full as int / multilooked as int > 1 {
        full as int / multilooked as int
    } else {
        1
    }
}

/// The looks that two sizes tell of: one each where a size is missing.
pub open spec fn looks_of(full: Option<Size>, multilooked: Option<Size>) -> (int, int) {
    match (full, multilooked) {
        (Some(full), Some(ml)) => (ratio(full.length, ml.length), ratio(full.width, ml.width)),
        _ => (1, 1),
    }
}

/// Compute the looks by comparing the size that hgt.rdr.full.xml states to that of
/// hgt.rdr.xml. Falls back to one each if either is absent.
pub fn compute_looks(full: Option<Size>, multilooked: Option<Size>) -> (r: Looks)
    requires
        full is Some && multilooked is Some ==> (multilooked->0).width > 0 && (
        multilooked->0).length > 0,
    ensures
        (r.azimuth as int, r.range as int) == looks_of(full, multilooked),
{
    match (full, multilooked) {
        (Some(full), Some(ml)) => {
            let range: u32 = full.width / ml.width;
            let azimuth: u32 = full.length / ml.length;
            Looks {
                azimuth: if azimuth > 1 {
                    azimuth
                } else {
                    1
                },
                range: if range > 1 {
                    range
                } else {
                    1
                },
            }
        },
        _ => Looks { azimuth: 1, range: 1 },
    }
}

// ---------------------------------------------------------------------------
// The stack
// ---------------------------------------------------------------------------

/// Sentinel-1 satellite speed (m/s). ISCE2 computes this from the orbit state
/// vector via Hermite interpolation; this is the standard value for Sentinel-1.
pub const SAT_SPEED: &'static str = "7581.695";

/// Sentinel-1 IW azimuth resolution (m).
pub const AZIMUTH_RESOLUTION: &'static str = "22.5";

/// Sentinel-1 IW range resolution (m).
pub const RANGE_RESOLUTION: &'static str = "2.7";

/// Mean spherical Earth radius (m).
pub const EARTH_RADIUS: &'static str = "6371000";

/// Sentinel-1 nominal altitude (m).
pub const HEIGHT: &'static str = "693000";

/// Approximate heading of Sentinel-1 (degrees); ISCE2 computes it from orbit
/// vectors.
pub open spec fn heading_of(orbit_direction: Seq<char>) -> Seq<char> {
    if orbit_direction == "ASCENDING"@ {
        "-13.6"@
    } else {
        "-166.4"@
    }
}

/// Platform name: "Sentinel-1" → "sen"
pub open spec fn platform_of(spacecraft: Seq<char>) -> Seq<char> {
    short_platform(text::lower_text(spacecraft))
}

/// The short form of a platform name in lower case.
pub open spec fn short_platform(name: Seq<char>) -> Seq<char> {
    if text::contains_text(name, "sentinel"@) {
        "sen"@
    } else {
        name
    }
}

/// The short form of a platform name in lower case.
pub fn shorten_platform(name: String) -> (r: String)
    ensures
        r@ == short_platform(name@),
{
    if contains(name.as_str(), "sentinel") {
        "sen".to_owned()
    } else {
        name
    }
}

/// What `data.rsc` tells of a stack, but for computed numbers.
#[derive(Debug)]
pub struct Stack {
    pub alooks: u32,
    pub rlooks: u32,
    pub width: u32,
    pub length: u32,
    pub orbit_direction: String,
    pub platform: String,
    pub polarization: String,
    pub orbit_number: u32,
    pub track_number: u32,
    pub beam_swath: String,
    pub start_utc: String,
    pub stop_utc: String,
    /// The texts of the numbers of the reference swath.
    pub starting_range: String,
    pub radar_wavelength: String,
    pub range_pixel_size: String,
    pub azimuth_time_interval: String,
    pub prf: String,
    /// The times of day of start and stop.
    pub start: UtcParts,
    pub stop: UtcParts,
}

/// Why a stack cannot be described.
#[derive(Debug)]
pub enum StackError {
    Utc(UtcError),
    /// No geometry file states a size.
    NoSize,
}

/// The first size that a geometry file states.
pub open spec fn first_size(hgt: Option<Size>, lat: Option<Size>, lon: Option<Size>) -> Option<
    Size,
> {
    if hgt is Some {
        hgt
    } else if lat is Some {
        lat
    } else {
        lon
    }
}

impl Stack {
    /// Whether the stack is described as it should be by swaths in order of their
    /// numbers, the sizes of the full geometry files and that of the multilooked
    /// one: the swath of the lowest number is the reference, sensing starts with
    /// its first burst and ends with the last burst of the highest swath.
    pub open spec fn describes(
        self,
        metas: Seq<IwMeta>,
        hgt: Option<Size>,
        lat: Option<Size>,
        lon: Option<Size>,
        multilooked: Option<Size>,
    ) -> bool {
        let reference = metas[0]@;
        let size = first_size(hgt, lat, lon);
        &&& (self.alooks as int, self.rlooks as int) == looks_of(hgt, multilooked)
        &&& size == Some(Size { width: self.width, length: self.length })
        &&& self.orbit_direction@ == reference.pass_direction
        &&& self.platform@ == platform_of(reference.spacecraft_name)
        &&& self.polarization@ == reference.polarization
        &&& self.orbit_number == reference.orbit_number
        &&& self.track_number == reference.track_number
        &&& self.beam_swath@ == swath_digits(metas)
        &&& self.start_utc@ == reference.start_utc
        &&& self.stop_utc@ == metas.last()@.stop_utc
        &&& self.starting_range@ == reference.starting_range
        &&& self.radar_wavelength@ == reference.radar_wavelength
        &&& self.range_pixel_size@ == reference.range_pixel_size
        &&& self.azimuth_time_interval@ == reference.azimuth_time_interval
        &&& self.prf@ == reference.prf
        &&& time_parts(reference.start_utc) == Ok::<_, UtcErrorModel>(
            (self.start.hours@, self.start.minutes@, self.start.seconds@),
        )
        &&& time_parts(metas.last()@.stop_utc) == Ok::<_, UtcErrorModel>(
            (self.stop.hours@, self.stop.minutes@, self.stop.seconds@),
        )
    }
}

/// Describes a stack by its swaths, in any order, and by the sizes that its
/// geometry files state.
pub fn describe_stack(
    metas: Vec<IwMeta>,
    hgt: Option<Size>,
    lat: Option<Size>,
    lon: Option<Size>,
    multilooked: Option<Size>,
) -> (r: Result<Stack, StackError>)
    requires
        metas.len() > 0,
        hgt is Some && multilooked is Some ==> (multilooked->0).width > 0 && (
        multilooked->0).length > 0,
    ensures
        ({
            let sorted = by_swath(metas@);
            let start = time_parts(sorted[0]@.start_utc);
            let stop = time_parts(sorted.last()@.stop_utc);
            match r {
                Ok(stack) => stack.describes(sorted, hgt, lat, lon, multilooked),
                Err(StackError::Utc(error)) => start == Err::<
                    (Seq<char>, Seq<char>, Seq<char>),
                    _,
                >(error@) || (start is Ok && stop == Err::<(Seq<char>, Seq<char>, Seq<char>), _>(
                    error@,
                )),
                Err(StackError::NoSize) => start is Ok && stop is Ok && first_size(
                    hgt,
                    lat,
                    lon,
                ) is None,
            }
        }),
{
    let metas = sort_by_swath(metas);
    let reference = &metas[0];
    let last = &metas[metas.len() - 1];
    let start = match utc_to_seconds(reference.start_utc.as_str()) {
        Ok(parts) => parts,
        Err(error) => {
            return Err(StackError::Utc(error));
        },
    };
    let stop = match utc_to_seconds(last.stop_utc.as_str()) {
        Ok(parts) => parts,
        Err(error) => {
            return Err(StackError::Utc(error));
        },
    };
    let size = match (hgt, lat, lon) {
        (Some(size), _, _) => size,
        (None, Some(size), _) => size,
        (None, None, Some(size)) => size,
        _ => {
            return Err(StackError::NoSize);
        },
    };
    let looks = compute_looks(hgt, multilooked);
    let platform = shorten_platform(reference.spacecraft_name.as_str().to_lowercase());
    Ok(
        Stack {
            alooks: looks.azimuth,
            rlooks: looks.range,
            width: size.width,
            length: size.length,
            orbit_direction: reference.pass_direction.clone(),
            platform,
            polarization: reference.polarization.clone(),
            orbit_number: reference.orbit_number,
            track_number: reference.track_number,
            beam_swath: beam_swath(&metas),
            start_utc: reference.start_utc.clone(),
            stop_utc: last.stop_utc.clone(),
            starting_range: reference.starting_range.clone(),
            radar_wavelength: reference.radar_wavelength.clone(),
            range_pixel_size: reference.range_pixel_size.clone(),
            azimuth_time_interval: reference.azimuth_time_interval.clone(),
            prf: reference.prf.clone(),
            start,
            stop,
        },
    )
}

// ---------------------------------------------------------------------------
// data.rsc
// ---------------------------------------------------------------------------

/// The texts of the numbers that are computed for `data.rsc`.
#[derive(Debug)]
pub struct RscNumbers {
    /// Multilooked azimuth pixel size (m).
    pub azimuth_pixel_size: String,
    /// Seconds of day at sensing mid.
    pub center_line_utc: String,
    /// Coherence calibration factor.
    pub ncorrlooks: String,
    pub prf: String,
    /// Multilooked range pixel size (m).
    pub range_pixel_size: String,
    pub starting_range: String,
    pub wavelength: String,
}

/// The lines of `data.rsc`: a label, padded to a column, and a value. The
/// polarization stands there in upper and in lower case.
pub open spec fn rsc_lines(
    stack: Stack,
    numbers: RscNumbers,
    upper: Seq<char>,
    lower: Seq<char>,
) -> Seq<(Seq<char>, Seq<char>)> {
    seq![
        ("ALOOKS                    "@, number::decimal(stack.alooks as int)),
        ("ANTENNA_SIDE              "@, "-1"@),
        ("AZIMUTH_PIXEL_SIZE        "@, numbers.azimuth_pixel_size@),
        ("CENTER_LINE_UTC           "@, numbers.center_line_utc@),
        ("EARTH_RADIUS              "@, EARTH_RADIUS@),
        ("FILE_LENGTH               "@, number::decimal(stack.length as int)),
        ("HEADING                   "@, heading_of(stack.orbit_direction@)),
        ("HEIGHT                    "@, HEIGHT@),
        ("LENGTH                    "@, number::decimal(stack.length as int)),
        ("NCORRLOOKS                "@, numbers.ncorrlooks@),
        ("ORBIT_DIRECTION           "@, stack.orbit_direction@),
        ("PLATFORM                  "@, stack.platform@),
        ("POLARIZATION              "@, upper),
        ("PRF                       "@, numbers.prf@),
        ("PROCESSOR                 "@, "isce"@),
        ("RANGE_PIXEL_SIZE          "@, numbers.range_pixel_size@),
        ("RLOOKS                    "@, number::decimal(stack.rlooks as int)),
        ("STARTING_RANGE            "@, numbers.starting_range@),
        ("WAVELENGTH                "@, numbers.wavelength@),
        ("WIDTH                     "@, number::decimal(stack.width as int)),
        ("altitude                  "@, HEIGHT@),
        ("azimuthPixelSize          "@, numbers.azimuth_pixel_size@),
        ("azimuthResolution         "@, AZIMUTH_RESOLUTION@),
        ("beam_mode                 "@, "IW"@),
        ("beam_swath                "@, stack.beam_swath@),
        ("earthRadius               "@, EARTH_RADIUS@),
        ("orbitNumber               "@, number::decimal(stack.orbit_number as int)),
        ("passDirection             "@, stack.orbit_direction@),
        ("polarization              "@, lower),
        ("prf                       "@, numbers.prf@),
        ("radarWavelength           "@, numbers.wavelength@),
        ("rangePixelSize            "@, numbers.range_pixel_size@),
        ("rangeResolution           "@, RANGE_RESOLUTION@),
        ("satelliteSpeed            "@, SAT_SPEED@),
        ("startUTC                  "@, stack.start_utc@),
        ("startingRange             "@, numbers.starting_range@),
        ("stopUTC                   "@, stack.stop_utc@),
        ("swathNumber               "@, stack.beam_swath@),
        ("trackNumber               "@, number::decimal(stack.track_number as int)),
    ]
}

/// The text of lines.
pub open spec fn rsc_text(lines: Seq<(Seq<char>, Seq<char>)>) -> Seq<char>
    decreases lines.len(),
{
    if lines.len() == 0 {
        Seq::empty()
    } else {
        rsc_text(lines.drop_last()) + lines.last().0 + lines.last().1 + "\n"@
    }
}

fn push_line(out: &mut String, label: &str, value: &str)
    ensures
        forall|lines: Seq<(Seq<char>, Seq<char>)>|
            old(out)@ == #[trigger] rsc_text(lines) ==> final(out)@ == rsc_text(
                lines.push((label@, value@)),
            ),
{
    let ghost before = out@;
    out.append(label);
    out.append(value);
    out.append("\n");
    proof {
        assert forall|lines: Seq<(Seq<char>, Seq<char>)>|
            before == #[trigger] rsc_text(lines) implies out@ == rsc_text(
            lines.push((label@, value@)),
        ) by {
            assert(lines.push((label@, value@)).drop_last() =~= lines);
        }
    }
}

/// Writes `data.rsc`.
pub fn build_data_rsc(stack: &Stack, numbers: &RscNumbers) -> (r: String)
    ensures
        r@ == rsc_text(
            rsc_lines(
                *stack,
                *numbers,
                text::upper_text(stack.polarization@),
                text::lower_text(stack.polarization@),
            ),
        ),
{
    let upper = stack.polarization.as_str().to_uppercase();
    let lower = stack.polarization.as_str().to_lowercase();
    write_rsc(stack, numbers, upper.as_str(), lower.as_str())
}

/// Writes `data.rsc`, given the polarization in upper and in lower case.
pub fn write_rsc(stack: &Stack, numbers: &RscNumbers, upper: &str, lower: &str) -> (r: String)
    ensures
        r@ == rsc_text(rsc_lines(*stack, *numbers, upper@, lower@)),
{
    let heading = if text_eq(stack.orbit_direction.as_str(), "ASCENDING") {
        "-13.6"
    } else {
        "-166.4"
    };
    let mut out = String::new();
    let ghost mut lines = Seq::<(Seq<char>, Seq<char>)>::empty();
    assert(out@ =~= rsc_text(lines));
    push_line(&mut out, "ALOOKS                    ", decimal_u64(stack.alooks as u64).as_str());
    proof {
        lines = lines.push(("ALOOKS                    "@, number::decimal(stack.alooks as int)));
    }
    push_line(&mut out, "ANTENNA_SIDE              ", "-1");
    proof {
        lines = lines.push(("ANTENNA_SIDE              "@, "-1"@));
    }
    push_line(&mut out, "AZIMUTH_PIXEL_SIZE        ", numbers.azimuth_pixel_size.as_str());
    proof {
        lines = lines.push(("AZIMUTH_PIXEL_SIZE        "@, numbers.azimuth_pixel_size@));
    }
    push_line(&mut out, "CENTER_LINE_UTC           ", numbers.center_line_utc.as_str());
    proof {
        lines = lines.push(("CENTER_LINE_UTC           "@, numbers.center_line_utc@));
    }
    push_line(&mut out, "EARTH_RADIUS              ", EARTH_RADIUS);
    proof {
        lines = lines.push(("EARTH_RADIUS              "@, EARTH_RADIUS@));
    }
    push_line(&mut out, "FILE_LENGTH               ", decimal_u64(stack.length as u64).as_str());
    proof {
        lines = lines.push(("FILE_LENGTH               "@, number::decimal(stack.length as int)));
    }
    push_line(&mut out, "HEADING                   ", heading);
    proof {
        lines = lines.push(("HEADING                   "@, heading_of(stack.orbit_direction@)));
    }
    push_line(&mut out, "HEIGHT                    ", HEIGHT);
    proof {
        lines = lines.push(("HEIGHT                    "@, HEIGHT@));
    }
    push_line(&mut out, "LENGTH                    ", decimal_u64(stack.length as u64).as_str());
    proof {
        lines = lines.push(("LENGTH                    "@, number::decimal(stack.length as int)));
    }
    push_line(&mut out, "NCORRLOOKS                ", numbers.ncorrlooks.as_str());
    proof {
        lines = lines.push(("NCORRLOOKS                "@, numbers.ncorrlooks@));
    }
    push_line(&mut out, "ORBIT_DIRECTION           ", stack.orbit_direction.as_str());
    proof {
        lines = lines.push(("ORBIT_DIRECTION           "@, stack.orbit_direction@));
    }
    push_line(&mut out, "PLATFORM                  ", stack.platform.as_str());
    proof {
        lines = lines.push(("PLATFORM                  "@, stack.platform@));
    }
    push_line(&mut out, "POLARIZATION              ", upper);
    proof {
        lines = lines.push(("POLARIZATION              "@, upper@));
    }
    push_line(&mut out, "PRF                       ", numbers.prf.as_str());
    proof {
        lines = lines.push(("PRF                       "@, numbers.prf@));
    }
    push_line(&mut out, "PROCESSOR                 ", "isce");
    proof {
        lines = lines.push(("PROCESSOR                 "@, "isce"@));
    }
    push_line(&mut out, "RANGE_PIXEL_SIZE          ", numbers.range_pixel_size.as_str());
    proof {
        lines = lines.push(("RANGE_PIXEL_SIZE          "@, numbers.range_pixel_size@));
    }
    push_line(&mut out, "RLOOKS                    ", decimal_u64(stack.rlooks as u64).as_str());
    proof {
        lines = lines.push(("RLOOKS                    "@, number::decimal(stack.rlooks as int)));
    }
    push_line(&mut out, "STARTING_RANGE            ", numbers.starting_range.as_str());
    proof {
        lines = lines.push(("STARTING_RANGE            "@, numbers.starting_range@));
    }
    push_line(&mut out, "WAVELENGTH                ", numbers.wavelength.as_str());
    proof {
        lines = lines.push(("WAVELENGTH                "@, numbers.wavelength@));
    }
    push_line(&mut out, "WIDTH                     ", decimal_u64(stack.width as u64).as_str());
    proof {
        lines = lines.push(("WIDTH                     "@, number::decimal(stack.width as int)));
    }
    push_line(&mut out, "altitude                  ", HEIGHT);
    proof {
        lines = lines.push(("altitude                  "@, HEIGHT@));
    }
    push_line(&mut out, "azimuthPixelSize          ", numbers.azimuth_pixel_size.as_str());
    proof {
        lines = lines.push(("azimuthPixelSize          "@, numbers.azimuth_pixel_size@));
    }
    push_line(&mut out, "azimuthResolution         ", AZIMUTH_RESOLUTION);
    proof {
        lines = lines.push(("azimuthResolution         "@, AZIMUTH_RESOLUTION@));
    }
    push_line(&mut out, "beam_mode                 ", "IW");
    proof {
        lines = lines.push(("beam_mode                 "@, "IW"@));
    }
    push_line(&mut out, "beam_swath                ", stack.beam_swath.as_str());
    proof {
        lines = lines.push(("beam_swath                "@, stack.beam_swath@));
    }
    push_line(&mut out, "earthRadius               ", EARTH_RADIUS);
    proof {
        lines = lines.push(("earthRadius               "@, EARTH_RADIUS@));
    }
    push_line(&mut out, "orbitNumber               ", decimal_u64(stack.orbit_number as u64).as_str());
    proof {
        lines = lines.push(("orbitNumber               "@, number::decimal(stack.orbit_number as int)));
    }
    push_line(&mut out, "passDirection             ", stack.orbit_direction.as_str());
    proof {
        lines = lines.push(("passDirection             "@, stack.orbit_direction@));
    }
    push_line(&mut out, "polarization              ", lower);
    proof {
        lines = lines.push(("polarization              "@, lower@));
    }
    push_line(&mut out, "prf                       ", numbers.prf.as_str());
    proof {
        lines = lines.push(("prf                       "@, numbers.prf@));
    }
    push_line(&mut out, "radarWavelength           ", numbers.wavelength.as_str());
    proof {
        lines = lines.push(("radarWavelength           "@, numbers.wavelength@));
    }
    push_line(&mut out, "rangePixelSize            ", numbers.range_pixel_size.as_str());
    proof {
        lines = lines.push(("rangePixelSize            "@, numbers.range_pixel_size@));
    }
    push_line(&mut out, "rangeResolution           ", RANGE_RESOLUTION);
    proof {
        lines = lines.push(("rangeResolution           "@, RANGE_RESOLUTION@));
    }
    push_line(&mut out, "satelliteSpeed            ", SAT_SPEED);
    proof {
        lines = lines.push(("satelliteSpeed            "@, SAT_SPEED@));
    }
    push_line(&mut out, "startUTC                  ", stack.start_utc.as_str());
    proof {
        lines = lines.push(("startUTC                  "@, stack.start_utc@));
    }
    push_line(&mut out, "startingRange             ", numbers.starting_range.as_str());
    proof {
        lines = lines.push(("startingRange             "@, numbers.starting_range@));
    }
    push_line(&mut out, "stopUTC                   ", stack.stop_utc.as_str());
    proof {
        lines = lines.push(("stopUTC                   "@, stack.stop_utc@));
    }
    push_line(&mut out, "swathNumber               ", stack.beam_swath.as_str());
    proof {
        lines = lines.push(("swathNumber               "@, stack.beam_swath@));
    }
    push_line(&mut out, "trackNumber               ", decimal_u64(stack.track_number as u64).as_str());
    proof {
        lines = lines.push(("trackNumber               "@, number::decimal(stack.track_number as int)));
    }
    assert(lines =~= rsc_lines(*stack, *numbers, upper@, lower@));
    out
}

// ---------------------------------------------------------------------------
// Laws
// ---------------------------------------------------------------------------

/// The looks in azimuth are how often the multilooked length fits into the full
/// one, those in range how often the width does, each at least one; a length does
/// not bear on the looks in range, nor a width on those in azimuth.
pub proof fn looks_are_how_often_it_fits(full: Size, multilooked: Size)
    requires
        multilooked.width > 0,
        multilooked.length > 0,
    ensures
        ({
            let (azimuth, range) = looks_of(Some(full), Some(multilooked));
            &&& azimuth >= 1 && range >= 1
            &&& full.length >= multilooked.length ==> azimuth * multilooked.length <= full.length
                < (azimuth + 1) * multilooked.length
            &&& full.length < multilooked.length ==> azimuth == 1
            &&& full.width >= multilooked.width ==> range * multilooked.width <= full.width < (range
                + 1) * multilooked.width
            &&& full.width < multilooked.width ==> range == 1
        }),
        looks_of(None, Some(multilooked)) == (1int, 1int),
        looks_of(Some(full), None) == (1int, 1int),
{
    lemma_ratio(full.length as int, multilooked.length as int);
    lemma_ratio(full.width as int, multilooked.width as int);
}

proof fn lemma_ratio(full: int, part: int)
    requires
        full >= 0,
        part > 0,
    ensures
        (full / part) * part <= full < (full / part + 1) * part,
        full / part >= 1 <==> full >= part,
{
    let q = full / part;
    vstd::arithmetic::div_mod::lemma_fundamental_div_mod(full, part);
    vstd::arithmetic::div_mod::lemma_mod_bound(full, part);
    assert(q * part <= full < (q + 1) * part) by (nonlinear_arith)
        requires
            full == part * q + full % part,
            0 <= full % part < part,
    ;
    assert(q >= 1 <==> full >= part) by (nonlinear_arith)
        requires
            q * part <= full < (q + 1) * part,
            part > 0,
    ;
}

/// What `data.rsc` tells of a stack, label by label, in terms of what the stack was
/// described by: the swaths in order, of which the first is the reference, and the
/// sizes of its files. Widths and range looks stand in the range fields, lengths
/// and azimuth looks in the azimuth fields.
pub proof fn data_rsc_tells_of_the_stack(
    stack: Stack,
    numbers: RscNumbers,
    upper: Seq<char>,
    lower: Seq<char>,
    metas: Seq<IwMeta>,
    hgt: Option<Size>,
    lat: Option<Size>,
    lon: Option<Size>,
    multilooked: Option<Size>,
)
    requires
        stack.describes(metas, hgt, lat, lon, multilooked),
    ensures
        ({
            let lines = rsc_lines(stack, numbers, upper, lower);
            let reference = metas[0]@;
            let size = match (hgt, lat) {
                (Some(size), _) => size,
                (None, Some(size)) => size,
                _ => lon->0,
            };
            &&& hgt is Some || lat is Some || lon is Some
            &&& lines.len() == 39
            &&& lines.contains(("ALOOKS                    "@, number::decimal(looks_of(hgt, multilooked).0)))
            &&& lines.contains(("ANTENNA_SIDE              "@, "-1"@))
            &&& lines.contains(("AZIMUTH_PIXEL_SIZE        "@, numbers.azimuth_pixel_size@))
            &&& lines.contains(("CENTER_LINE_UTC           "@, numbers.center_line_utc@))
            &&& lines.contains(("EARTH_RADIUS              "@, "6371000"@))
            &&& lines.contains(("FILE_LENGTH               "@, number::decimal(size.length as int)))
            &&& lines.contains(("HEADING                   "@, if reference.pass_direction == "ASCENDING"@ { "-13.6"@ } else { "-166.4"@ }))
            &&& lines.contains(("HEIGHT                    "@, "693000"@))
            &&& lines.contains(("LENGTH                    "@, number::decimal(size.length as int)))
            &&& lines.contains(("NCORRLOOKS                "@, numbers.ncorrlooks@))
            &&& lines.contains(("ORBIT_DIRECTION           "@, reference.pass_direction))
            &&& lines.contains(("PLATFORM                  "@, platform_of(reference.spacecraft_name)))
            &&& lines.contains(("POLARIZATION              "@, upper))
            &&& lines.contains(("PRF                       "@, numbers.prf@))
            &&& lines.contains(("PROCESSOR                 "@, "isce"@))
            &&& lines.contains(("RANGE_PIXEL_SIZE          "@, numbers.range_pixel_size@))
            &&& lines.contains(("RLOOKS                    "@, number::decimal(looks_of(hgt, multilooked).1)))
            &&& lines.contains(("STARTING_RANGE            "@, numbers.starting_range@))
            &&& lines.contains(("WAVELENGTH                "@, numbers.wavelength@))
            &&& lines.contains(("WIDTH                     "@, number::decimal(size.width as int)))
            &&& lines.contains(("altitude                  "@, "693000"@))
            &&& lines.contains(("azimuthPixelSize          "@, numbers.azimuth_pixel_size@))
            &&& lines.contains(("azimuthResolution         "@, "22.5"@))
            &&& lines.contains(("beam_mode                 "@, "IW"@))
            &&& lines.contains(("beam_swath                "@, swath_digits(metas)))
            &&& lines.contains(("earthRadius               "@, "6371000"@))
            &&& lines.contains(("orbitNumber               "@, number::decimal(reference.orbit_number as int)))
            &&& lines.contains(("passDirection             "@, reference.pass_direction))
            &&& lines.contains(("polarization              "@, lower))
            &&& lines.contains(("prf                       "@, numbers.prf@))
            &&& lines.contains(("radarWavelength           "@, numbers.wavelength@))
            &&& lines.contains(("rangePixelSize            "@, numbers.range_pixel_size@))
            &&& lines.contains(("rangeResolution           "@, "2.7"@))
            &&& lines.contains(("satelliteSpeed            "@, "7581.695"@))
            &&& lines.contains(("startUTC                  "@, reference.start_utc))
            &&& lines.contains(("startingRange             "@, numbers.starting_range@))
            &&& lines.contains(("stopUTC                   "@, metas.last()@.stop_utc))
            &&& lines.contains(("swathNumber               "@, swath_digits(metas)))
            &&& lines.contains(("trackNumber               "@, number::decimal(reference.track_number as int)))
        }),
{
    let lines = rsc_lines(stack, numbers, upper, lower);
    let reference = metas[0]@;
    let size = match (hgt, lat) {
        (Some(size), _) => size,
        (None, Some(size)) => size,
        _ => lon->0,
    };
    assert(lines[0] == ("ALOOKS                    "@, number::decimal(looks_of(hgt, multilooked).0)));
    assert(lines[1] == ("ANTENNA_SIDE              "@, "-1"@));
    assert(lines[2] == ("AZIMUTH_PIXEL_SIZE        "@, numbers.azimuth_pixel_size@));
    assert(lines[3] == ("CENTER_LINE_UTC           "@, numbers.center_line_utc@));
    assert(lines[4] == ("EARTH_RADIUS              "@, "6371000"@));
    assert(lines[5] == ("FILE_LENGTH               "@, number::decimal(size.length as int)));
    assert(lines[6] == ("HEADING                   "@, if reference.pass_direction == "ASCENDING"@ { "-13.6"@ } else { "-166.4"@ }));
    assert(lines[7] == ("HEIGHT                    "@, "693000"@));
    assert(lines[8] == ("LENGTH                    "@, number::decimal(size.length as int)));
    assert(lines[9] == ("NCORRLOOKS                "@, numbers.ncorrlooks@));
    assert(lines[10] == ("ORBIT_DIRECTION           "@, reference.pass_direction));
    assert(lines[11] == ("PLATFORM                  "@, platform_of(reference.spacecraft_name)));
    assert(lines[12] == ("POLARIZATION              "@, upper));
    assert(lines[13] == ("PRF                       "@, numbers.prf@));
    assert(lines[14] == ("PROCESSOR                 "@, "isce"@));
    assert(lines[15] == ("RANGE_PIXEL_SIZE          "@, numbers.range_pixel_size@));
    assert(lines[16] == ("RLOOKS                    "@, number::decimal(looks_of(hgt, multilooked).1)));
    assert(lines[17] == ("STARTING_RANGE            "@, numbers.starting_range@));
    assert(lines[18] == ("WAVELENGTH                "@, numbers.wavelength@));
    assert(lines[19] == ("WIDTH                     "@, number::decimal(size.width as int)));
    assert(lines[20] == ("altitude                  "@, "693000"@));
    assert(lines[21] == ("azimuthPixelSize          "@, numbers.azimuth_pixel_size@));
    assert(lines[22] == ("azimuthResolution         "@, "22.5"@));
    assert(lines[23] == ("beam_mode                 "@, "IW"@));
    assert(lines[24] == ("beam_swath                "@, swath_digits(metas)));
    assert(lines[25] == ("earthRadius               "@, "6371000"@));
    assert(lines[26] == ("orbitNumber               "@, number::decimal(reference.orbit_number as int)));
    assert(lines[27] == ("passDirection             "@, reference.pass_direction));
    assert(lines[28] == ("polarization              "@, lower));
    assert(lines[29] == ("prf                       "@, numbers.prf@));
    assert(lines[30] == ("radarWavelength           "@, numbers.wavelength@));
    assert(lines[31] == ("rangePixelSize            "@, numbers.range_pixel_size@));
    assert(lines[32] == ("rangeResolution           "@, "2.7"@));
    assert(lines[33] == ("satelliteSpeed            "@, "7581.695"@));
    assert(lines[34] == ("startUTC                  "@, reference.start_utc));
    assert(lines[35] == ("startingRange             "@, numbers.starting_range@));
    assert(lines[36] == ("stopUTC                   "@, metas.last()@.stop_utc));
    assert(lines[37] == ("swathNumber               "@, swath_digits(metas)));
    assert(lines[38] == ("trackNumber               "@, number::decimal(reference.track_number as int)));
}

/// The numbers that are computed for `data.rsc` start from those of the reference
/// swath, each from the property of its name, and from the times at which sensing
/// starts and stops.
pub proof fn stacks_keep_the_reference(
    stack: Stack,
    metas: Seq<IwMeta>,
    hgt: Option<Size>,
    lat: Option<Size>,
    lon: Option<Size>,
    multilooked: Option<Size>,
)
    requires
        stack.describes(metas, hgt, lat, lon, multilooked),
    ensures
        stack.starting_range@ == metas[0]@.starting_range,
        stack.radar_wavelength@ == metas[0]@.radar_wavelength,
        stack.range_pixel_size@ == metas[0]@.range_pixel_size,
        stack.azimuth_time_interval@ == metas[0]@.azimuth_time_interval,
        stack.prf@ == metas[0]@.prf,
        stack.alooks == looks_of(hgt, multilooked).0,
        stack.rlooks == looks_of(hgt, multilooked).1,
        stack.orbit_direction@ == metas[0]@.pass_direction,
        stack.polarization@ == metas[0]@.polarization,
        time_parts(metas[0]@.start_utc) == Ok::<_, UtcErrorModel>(
            (stack.start.hours@, stack.start.minutes@, stack.start.seconds@),
        ),
        time_parts(metas.last()@.stop_utc) == Ok::<_, UtcErrorModel>(
            (stack.stop.hours@, stack.stop.minutes@, stack.stop.seconds@),
        ),
{
}

/// Each field of a swath comes from the first property of its name, sensing starts
/// with the first burst and stops with the last, and the three whole numbers are
/// those that their properties write.
pub proof fn fields_come_from_their_properties(props: Seq<xml::PropertyModel>)
    requires
        iw_error(props) is None,
    ensures
        ({
            let meta = written_model(props);
            let starts = xml::values_of(props, "burststartutc"@);
            let stops = xml::values_of(props, "burststoputc"@);
            &&& xml::first_value(props, "startingrange"@) == Some(meta.starting_range)
            &&& xml::first_value(props, "radarwavelength"@) == Some(meta.radar_wavelength)
            &&& xml::first_value(props, "rangepixelsize"@) == Some(meta.range_pixel_size)
            &&& xml::first_value(props, "azimuthtimeinterval"@) == Some(meta.azimuth_time_interval)
            &&& xml::first_value(props, "pulserepetitionfrequency"@) == Some(meta.prf)
            &&& xml::first_value(props, "passdirection"@) == Some(meta.pass_direction)
            &&& xml::first_value(props, "polarization"@) == Some(meta.polarization)
            &&& xml::first_value(props, "spacecraftname"@) == Some(meta.spacecraft_name)
            &&& xml::first_value(props, "swathnumber"@) matches Some(text) && writes_number(
                text,
                meta.swath_number,
            )
            &&& xml::first_value(props, "orbitnumber"@) matches Some(text) && writes_number(
                text,
                meta.orbit_number,
            )
            &&& xml::first_value(props, "tracknumber"@) matches Some(text) && writes_number(
                text,
                meta.track_number,
            )
            &&& starts.len() > 0 && meta.start_utc == starts[0]
            &&& stops.len() > 0 && meta.stop_utc == stops[stops.len() - 1]
        }),
{
}

/// Whether a text writes a whole number.
pub open spec fn writes_number(text: Seq<char>, n: u32) -> bool {
    number::parsed_integer(text, false, 0, u32::MAX as int) == Some(n as int)
}

/// A name matches a pattern exactly where something stands in it for the wildcard:
/// what comes before the wildcard leads, what comes behind it ends.
pub proof fn wildcards_stand_for_something(
    prefix: Seq<char>,
    suffix: Seq<char>,
    middle: Seq<char>,
    name: Seq<char>,
)
    requires
        !prefix.contains('*'),
    ensures
        pattern_ends(prefix.push('*') + suffix) == (prefix, suffix),
        middle.len() > 0 ==> matches_pattern(prefix + middle + suffix, prefix, suffix),
        matches_pattern(name, prefix, suffix) ==> name.len() > prefix.len() + suffix.len() && name
            == prefix + name.subrange(prefix.len() as int, name.len() - suffix.len()) + suffix,
{
    let pattern = prefix.push('*') + suffix;
    let n = prefix.len() as int;
    assert(pattern[n] == '*');
    assert forall|i: int| 0 <= i < n implies pattern[i] != '*' by {
        assert(prefix.contains(prefix[i]));
        assert(pattern[i] == prefix[i]);
    }
    split::lemma_until_unique(pattern, '*', n);
    assert(pattern.take(n) =~= prefix);
    assert(pattern.skip(n + 1) =~= suffix);
    let whole = prefix + middle + suffix;
    assert(whole.subrange(0, n) =~= prefix);
    assert(whole.subrange(whole.len() - suffix.len(), whole.len() as int) =~= suffix);
    if matches_pattern(name, prefix, suffix) {
        let k = name.len() - suffix.len();
        assert(name.subrange(0, n) == prefix);
        assert(name.subrange(k, name.len() as int) == suffix);
        assert(name =~= name.subrange(0, n) + name.subrange(n, k) + name.subrange(
            k,
            name.len() as int,
        ));
    }
}

/// The files of a pattern are those of the directory that match it, and no others.
pub proof fn patterns_find_their_files(
    names: Seq<Seq<char>>,
    pattern: Seq<char>,
    name: Seq<char>,
)
    ensures
        matching(names, pattern).contains(name) <==> names.contains(name) && matches_pattern(
            name,
            pattern_ends(pattern).0,
            pattern_ends(pattern).1,
        ),
    decreases names.len(),
{
    if names.len() > 0 {
        let rest = names.drop_last();
        let before = matching(rest, pattern);
        let all = matching(names, pattern);
        patterns_find_their_files(rest, pattern, name);
        if before.contains(name) {
            let k = choose|k: int| 0 <= k < before.len() && before[k] == name;
            assert(all[k] == name);
            let i = choose|i: int| 0 <= i < rest.len() && rest[i] == name;
            assert(names[i] == name);
        }
        if all.contains(name) && !before.contains(name) {
            let k = choose|k: int| 0 <= k < all.len() && all[k] == name;
            if k < before.len() {
                assert(before[k] == name);
            }
            assert(names[names.len() - 1] == name);
        }
        if names.contains(name) && !rest.contains(name) {
            let i = choose|i: int| 0 <= i < names.len() && names[i] == name;
            if i < rest.len() {
                assert(rest[i] == name);
            }
            if all.len() > before.len() {
                assert(all.last() == name);
            }
        }
    }
}

/// A file that was made at the same moment as another, or earlier, is not newer; one
/// whose time is not known might be.
pub proof fn only_later_files_are_newer(file: Timestamp, than: Timestamp)
    ensures
        not_newer(Some(file), than) <==> file == than || file.secs < than.secs || (file.secs
            == than.secs && file.nanos < than.nanos),
        !not_newer(None, than),
{
}

/// The satellite flies north on ascending orbits alone. A Sentinel goes by its short
/// name wherever the word stands in its own; any other platform keeps its name.
pub proof fn orbits_and_platforms_are_told_apart(
    direction: Seq<char>,
    before: Seq<char>,
    after: Seq<char>,
    name: Seq<char>,
)
    ensures
        direction == "ASCENDING"@ ==> heading_of(direction) == "-13.6"@,
        direction != "ASCENDING"@ ==> heading_of(direction) == "-166.4"@,
        short_platform(before + "sentinel"@ + after) == "sen"@,
        !text::contains_text(name, "sentinel"@) ==> short_platform(name) == name,
{
    let whole = before + "sentinel"@ + after;
    let n = before.len() as int;
    assert(whole.subrange(n, n + "sentinel"@.len()) =~= "sentinel"@);
    assert(text::occurs_at(whole, "sentinel"@, n));
}

/// The size is that of the first geometry file that states one: of the heights, then
/// of the latitudes, then of the longitudes.
pub proof fn the_first_stated_size_counts(hgt: Option<Size>, lat: Option<Size>, lon: Option<Size>)
    ensures
        first_size(hgt, lat, lon) is None <==> hgt is None && lat is None && lon is None,
        hgt is Some ==> first_size(hgt, lat, lon) == hgt,
        hgt is None && lat is Some ==> first_size(hgt, lat, lon) == lat,
        hgt is None && lat is None ==> first_size(hgt, lat, lon) == lon,
{
}

} // verus!
