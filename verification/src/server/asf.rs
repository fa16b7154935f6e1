//! ASF (Alaska Satellite Facility) search.
//!
//! Writes the query, groups the features that it finds by orbit path, selects
//! the optimal path, applies the adjacent-burst fallback, and builds the burst
//! lists that the download container works from. Areas are not computed here:
//! the coverage of each path comes in as a number.
use vstd::prelude::*;

use crate::bursts::{BurstKey, BurstKeyModel, BurstList, BurstPaths, BurstPathsModel};
use crate::float64;
use crate::float64::Float64;
use crate::number;
use crate::number::decimal_i64;
use crate::paths;
use crate::paths::join;
use crate::shared::types::{FlightPathError, JobRequest, Sensor};
use crate::text;
use crate::text::{concat2, first_bytes, opt_text_eq, text_eq};
use crate::time;
use crate::time::date_text;
use crate::urls;
use crate::urls::path_segments;

verus! {

// ---------------------------------------------------------------------------
// Features
// ---------------------------------------------------------------------------

/// Which burst of which subswath a feature shows.
#[derive(Debug)]
pub struct BurstProperties {
    pub burst_index: i64,
    pub subswath: String,
}

/// What the search says of a feature.
#[derive(Debug)]
pub struct Properties {
    /// Orbit path number.
    pub path_number: usize,
    pub tiff_url: String,
    pub metadata_url: String,
    /// ISO-8601 acquisition start time; the first 10 bytes give the date.
    pub start_time: String,
    pub burst: BurstProperties,
    /// Scene (granule) identifier.
    pub scene_name: String,
}

impl Properties {
    /// Whether the start time begins with a date.
    pub open spec fn dated(self) -> bool {
        text::byte_prefix(self.start_time@, 10) is Some
    }

    /// The acquisition date.
    pub open spec fn date(self) -> Seq<char> {
        text::byte_prefix(self.start_time@, 10)->0
    }

    /// The burst that the feature shows.
    pub open spec fn key(self) -> (i64, Seq<char>) {
        (self.burst.burst_index, self.burst.subswath@)
    }

    /// The acquisition date, where the start time begins with one.
    pub fn read_date(&self) -> (r: Option<String>)
        ensures
            match r {
                Some(date) => self.dated() && date@ == self.date(),
                None => !self.dated(),
            },
    {
        first_bytes(self.start_time.as_str(), 10)
    }
}

/// Whether every start time begins with a date.
pub open spec fn all_dated(features: Seq<Properties>) -> bool {
    forall|i: int| 0 <= i < features.len() ==> (#[trigger] features[i]).dated()
}

/// Whether every start time begins with a date.
pub fn check_dates(features: &Vec<Properties>) -> (r: bool)
    ensures
        r == all_dated(features@),
{
    for i in 0..features.len()
        invariant
            forall|j: int| 0 <= j < i ==> (#[trigger] features[j]).dated(),
    {
        if features[i].read_date().is_none() {
            assert(!features[i as int].dated());
            return false;
        }
    }
    true
}

// ---------------------------------------------------------------------------
// Grouping by path
// ---------------------------------------------------------------------------

/// What is known of one orbit path.
#[derive(Debug)]
pub struct PathAccum {
    pub path: usize,
    /// Positions of the features of the path.
    pub features: Vec<usize>,
    /// The acquisition dates, each once.
    pub dates: Vec<String>,
    /// The bursts, each once.
    pub seen_bursts: Vec<(i64, String)>,
    /// Positions of the features that show a burst for the first time: the
    /// union of their footprints is what the path covers.
    pub footprint: Vec<usize>,
}

/// What a `PathAccum` says.
#[verifier::ext_equal]
pub struct PathModel {
    pub path: usize,
    pub features: Seq<int>,
    pub dates: Seq<Seq<char>>,
    pub bursts: Seq<(i64, Seq<char>)>,
    pub footprint: Seq<int>,
}

/// Positions as integers.
pub open spec fn positions(v: Seq<usize>) -> Seq<int> {
    v.map_values(|i: usize| i as int)
}

/// The views of a list of bursts.
pub open spec fn burst_keys(v: Seq<(i64, String)>) -> Seq<(i64, Seq<char>)> {
    v.map_values(|b: (i64, String)| (b.0, b.1@))
}

impl View for PathAccum {
    type V = PathModel;

    open spec fn view(&self) -> PathModel {
        PathModel {
            path: self.path,
            features: positions(self.features@),
            dates: text::texts(self.dates@),
            bursts: burst_keys(self.seen_bursts@),
            footprint: positions(self.footprint@),
        }
    }
}

/// The views of a list of paths.
pub open spec fn models(groups: Seq<PathAccum>) -> Seq<PathModel> {
    groups.map_values(|a: PathAccum| a@)
}

impl PathModel {
    /// A path of which no feature has been seen.
    pub open spec fn empty(path: usize) -> PathModel {
        PathModel {
            path,
            features: Seq::empty(),
            dates: Seq::empty(),
            bursts: Seq::empty(),
            footprint: Seq::empty(),
        }
    }

    /// The path after one more of its features.
    pub open spec fn with(self, at: int, date: Seq<char>, burst: (i64, Seq<char>)) -> PathModel {
        PathModel {
            path: self.path,
            features: self.features.push(at),
            dates: if self.dates.contains(date) {
                self.dates
            } else {
                self.dates.push(date)
            },
            bursts: if self.bursts.contains(burst) {
                self.bursts
            } else {
                self.bursts.push(burst)
            },
            footprint: if self.bursts.contains(burst) {
                self.footprint
            } else {
                self.footprint.push(at)
            },
        }
    }
}

/// What the features say of a path.
pub open spec fn path_model(features: Seq<Properties>, path: usize) -> PathModel
    decreases features.len(),
{
    if features.len() == 0 {
        PathModel::empty(path)
    } else {
        let before = path_model(features.drop_last(), path);
        let last = features.last();
        if last.path_number == path {
            before.with(features.len() - 1, last.date(), last.key())
        } else {
            before
        }
    }
}

/// The paths of the features, each once, in the order in which they come up.
pub open spec fn paths_of(features: Seq<Properties>) -> Seq<usize>
    decreases features.len(),
{
    if features.len() == 0 {
        Seq::empty()
    } else {
        let before = paths_of(features.drop_last());
        if before.contains(features.last().path_number) {
            before
        } else {
            before.push(features.last().path_number)
        }
    }
}

/// What the features say of each of their paths.
pub open spec fn grouped(features: Seq<Properties>) -> Seq<PathModel> {
    paths_of(features).map_values(|path: usize| path_model(features, path))
}

impl PathAccum {
    fn has_date(&self, date: &str) -> (r: bool)
        ensures
            r == self@.dates.contains(date@),
    {
        for i in 0..self.dates.len()
            invariant
                forall|j: int| 0 <= j < i ==> (#[trigger] self.dates[j])@ != date@,
        {
            if text_eq(self.dates[i].as_str(), date) {
                assert(self@.dates[i as int] == date@);
                return true;
            }
        }
        proof {
            if self@.dates.contains(date@) {
                let j = choose|j: int| 0 <= j < self@.dates.len() && self@.dates[j] == date@;
                assert(self.dates[j]@ == date@);
            }
        }
        false
    }

    fn has_burst(&self, index: i64, subswath: &str) -> (r: bool)
        ensures
            r == self@.bursts.contains((index, subswath@)),
    {
        for i in 0..self.seen_bursts.len()
            invariant
                forall|j: int|
                    0 <= j < i ==> ((#[trigger] self.seen_bursts[j]).0, self.seen_bursts[j].1@) != (
                        index,
                        subswath@,
                    ),
        {
            if self.seen_bursts[i].0 == index && text_eq(self.seen_bursts[i].1.as_str(), subswath) {
                assert(self@.bursts[i as int] == (index, subswath@));
                return true;
            }
        }
        proof {
            if self@.bursts.contains((index, subswath@)) {
                let j = choose|j: int|
                    0 <= j < self@.bursts.len() && self@.bursts[j] == (index, subswath@);
                assert((self.seen_bursts[j].0, self.seen_bursts[j].1@) == (index, subswath@));
            }
        }
        false
    }

    fn new(path: usize) -> (r: PathAccum)
        ensures
            r@ == PathModel::empty(path),
    {
        let r = PathAccum {
            path,
            features: Vec::new(),
            dates: Vec::new(),
            seen_bursts: Vec::new(),
            footprint: Vec::new(),
        };
        assert(r@ =~= PathModel::empty(path));
        r
    }

    fn record(&mut self, at: usize, date: String, index: i64, subswath: &str)
        ensures
            final(self)@ == old(self)@.with(at as int, date@, (index, subswath@)),
    {
        let ghost before = self@;
        self.features.push(at);
        assert(self@.features =~= before.features.push(at as int));
        if !self.has_date(date.as_str()) {
            let ghost named = date@;
            self.dates.push(date);
            assert(self@.dates =~= before.dates.push(named));
        }
        if !self.has_burst(index, subswath) {
            self.seen_bursts.push((index, subswath.to_owned()));
            self.footprint.push(at);
            assert(self@.bursts =~= before.bursts.push((index, subswath@)));
            assert(self@.footprint =~= before.footprint.push(at as int));
        }
    }
}

proof fn lemma_paths_unique(features: Seq<Properties>)
    ensures
        paths_of(features).no_duplicates(),
    decreases features.len(),
{
    if features.len() > 0 {
        lemma_paths_unique(features.drop_last());
    }
}

proof fn lemma_path_of_model(features: Seq<Properties>, path: usize)
    ensures
        path_model(features, path).path == path,
    decreases features.len(),
{
    if features.len() > 0 {
        lemma_path_of_model(features.drop_last(), path);
    }
}

/// A path without features has nothing recorded.
proof fn lemma_absent_path(features: Seq<Properties>, path: usize)
    requires
        !paths_of(features).contains(path),
    ensures
        path_model(features, path) == PathModel::empty(path),
    decreases features.len(),
{
    if features.len() > 0 {
        let before = paths_of(features.drop_last());
        let after = paths_of(features);
        if before.contains(path) {
            let k = choose|k: int| 0 <= k < before.len() && before[k] == path;
            assert(after[k] == path);
        }
        if features.last().path_number == path {
            assert(after.last() == path || before.contains(path));
        }
        lemma_absent_path(features.drop_last(), path);
    }
}

/// Accumulates features per path.
pub fn group_features(features: &Vec<Properties>) -> (r: Vec<PathAccum>)
    requires
        all_dated(features@),
    ensures
        models(r@) == grouped(features@),
{
    let mut groups: Vec<PathAccum> = Vec::new();
    let ghost all = features@;
    assert(models(groups@) =~= grouped(all.take(0)));
    for n in 0..features.len()
        invariant
            all == features@,
            all_dated(all),
            models(groups@) == grouped(all.take(n as int)),
    {
        let ghost seen = all.take(n as int);
        let ghost now = all.take(n + 1);
        let ghost before = models(groups@);
        proof {
            assert(now.drop_last() =~= seen);
            assert(now.last() == all[n as int]);
            lemma_paths_unique(seen);
            assert(before.len() == paths_of(seen).len());
            assert forall|k: int| 0 <= k < groups.len() implies (#[trigger] groups[k])@
                == path_model(seen, paths_of(seen)[k]) && groups[k].path == paths_of(seen)[k] by {
                assert(before[k] == groups[k]@);
                assert(grouped(seen)[k] == path_model(seen, paths_of(seen)[k]));
                lemma_path_of_model(seen, paths_of(seen)[k]);
            }
        }
        let path: usize = features[n].path_number;
        let mut k: usize = 0;
        while k < groups.len() && groups[k].path != path
            invariant
                k <= groups.len(),
                groups.len() == paths_of(seen).len(),
                forall|j: int|
                    0 <= j < groups.len() ==> (#[trigger] groups[j]).path == paths_of(seen)[j],
                forall|j: int| 0 <= j < k ==> paths_of(seen)[j] != path,
            ensures
                k < groups.len() ==> groups[k as int].path == path,
            decreases groups.len() - k,
        {
            k = k + 1;
        }
        let date = match features[n].read_date() {
            Some(date) => date,
            None => {
                assert(all[n as int].dated());
                String::new()
            },
        };
        assert(date@ == all[n as int].date());
        let index: i64 = features[n].burst.burst_index;
        if k == groups.len() {
            proof {
                lemma_absent_path(seen, path);
                assert(!paths_of(seen).contains(path));
            }
            let mut accum = PathAccum::new(path);
            accum.record(n, date, index, features[n].burst.subswath.as_str());
            let ghost added = accum@;
            groups.push(accum);
            proof {
                let after = models(groups@);
                assert(paths_of(now) == paths_of(seen).push(path));
                assert(added == path_model(now, path));
                assert forall|j: int| 0 <= j < after.len() implies after[j] == grouped(now)[j] by {
                    if j < before.len() {
                        assert(after[j] == before[j]);
                        assert(paths_of(seen)[j] != path);
                    }
                }
                assert(after =~= grouped(now));
            }
        } else {
            proof {
                assert(paths_of(seen)[k as int] == path);
                assert(paths_of(seen).contains(path));
            }
            groups[k].record(n, date, index, features[n].burst.subswath.as_str());
            proof {
                let after = models(groups@);
                assert(paths_of(now) == paths_of(seen));
                assert forall|j: int| 0 <= j < after.len() implies after[j] == grouped(now)[j] by {
                    if j != k {
                        assert(after[j] == before[j]);
                        assert(paths_of(seen)[j] != path);
                    } else {
                        assert(before[j] == path_model(seen, path));
                        assert(after[j] == before[j].with(
                            n as int,
                            all[n as int].date(),
                            all[n as int].key(),
                        ));
                    }
                }
                assert(after =~= grouped(now));
            }
        }
    }
    assert(all.take(features.len() as int) =~= all);
    groups
}

/// Whether a list of positions holds exactly the features of a path.
pub open spec fn holds_path(features: Seq<Properties>, path: usize, at: Seq<int>) -> bool {
    &&& forall|i: int|
        0 <= i < at.len() ==> 0 <= #[trigger] at[i] < features.len() && features[at[i]].path_number
            == path
    &&& forall|i: int, j: int| 0 <= i < j < at.len() ==> #[trigger] at[i] < #[trigger] at[j]
    &&& forall|n: int|
        0 <= n < features.len() && (#[trigger] features[n]).path_number == path ==> at.contains(n)
}

/// The features of a path are kept in order, with none left out; its dates and
/// its bursts are those of its features, each counted once; and each burst has
/// one feature in the footprint.
pub proof fn path_counts_each_once(features: Seq<Properties>, path: usize)
    ensures
        ({
            let m = path_model(features, path);
            &&& holds_path(features, path, m.features)
            &&& m.dates.no_duplicates()
            &&& forall|date: Seq<char>|
                m.dates.contains(date) <==> exists|n: int|
                    0 <= n < features.len() && (#[trigger] features[n]).path_number == path
                        && features[n].date() == date
            &&& m.bursts.no_duplicates()
            &&& forall|burst: (i64, Seq<char>)|
                m.bursts.contains(burst) <==> exists|n: int|
                    0 <= n < features.len() && (#[trigger] features[n]).path_number == path
                        && features[n].key() == burst
            &&& m.footprint.len() == m.bursts.len()
            &&& forall|i: int|
                0 <= i < m.footprint.len() ==> 0 <= #[trigger] m.footprint[i] < features.len()
                    && features[m.footprint[i]].path_number == path
                    && features[m.footprint[i]].key() == m.bursts[i]
        }),
    decreases features.len(),
{
    let m = path_model(features, path);
    if features.len() > 0 {
        let rest = features.drop_last();
        let b = path_model(rest, path);
        let top = features.len() - 1;
        path_counts_each_once(rest, path);
        assert forall|n: int| 0 <= n < rest.len() implies rest[n] == features[n] by {}
        let date = features[top].date();
        let key = features[top].key();
        if features[top].path_number == path {
            assert(m == b.with(top, date, key));
            assert forall|n: int|
                0 <= n < features.len() && (#[trigger] features[n]).path_number
                    == path implies m.features.contains(n) by {
                if n == top {
                    assert(m.features[m.features.len() - 1] == n);
                } else {
                    assert(rest[n].path_number == path);
                    let k = choose|k: int| 0 <= k < b.features.len() && b.features[k] == n;
                    assert(m.features[k] == n);
                }
            }
            assert forall|i: int| 0 <= i < m.features.len() implies 0 <= #[trigger] m.features[i]
                < features.len() && features[m.features[i]].path_number == path by {
                if i < b.features.len() {
                    assert(m.features[i] == b.features[i]);
                    assert(rest[b.features[i]] == features[b.features[i]]);
                }
            }
            assert forall|d: Seq<char>| m.dates.contains(d) <==> exists|n: int|
                0 <= n < features.len() && (#[trigger] features[n]).path_number == path
                    && features[n].date() == d by {
                lemma_date_added(features, path, d);
            }
            assert forall|d: (i64, Seq<char>)| m.bursts.contains(d) <==> exists|n: int|
                0 <= n < features.len() && (#[trigger] features[n]).path_number == path
                    && features[n].key() == d by {
                lemma_burst_added(features, path, d);
            }
            assert forall|i: int| 0 <= i < m.footprint.len() implies 0 <= #[trigger] m.footprint[i]
                < features.len() && features[m.footprint[i]].path_number == path
                && features[m.footprint[i]].key() == m.bursts[i] by {
                if i < b.footprint.len() {
                    assert(m.footprint[i] == b.footprint[i]);
                    assert(rest[b.footprint[i]] == features[b.footprint[i]]);
                }
            }
        } else {
            assert(m == b);
            assert forall|n: int|
                0 <= n < features.len() && (#[trigger] features[n]).path_number
                    == path implies m.features.contains(n) by {
                assert(rest[n].path_number == path);
            }
            assert forall|i: int| 0 <= i < m.features.len() implies 0 <= #[trigger] m.features[i]
                < features.len() && features[m.features[i]].path_number == path by {
                assert(rest[b.features[i]] == features[b.features[i]]);
            }
            assert forall|d: Seq<char>| m.dates.contains(d) <==> exists|n: int|
                0 <= n < features.len() && (#[trigger] features[n]).path_number == path
                    && features[n].date() == d by {
                lemma_date_added(features, path, d);
            }
            assert forall|d: (i64, Seq<char>)| m.bursts.contains(d) <==> exists|n: int|
                0 <= n < features.len() && (#[trigger] features[n]).path_number == path
                    && features[n].key() == d by {
                lemma_burst_added(features, path, d);
            }
            assert forall|i: int| 0 <= i < m.footprint.len() implies 0 <= #[trigger] m.footprint[i]
                < features.len() && features[m.footprint[i]].path_number == path
                && features[m.footprint[i]].key() == m.bursts[i] by {
                assert(rest[b.footprint[i]] == features[b.footprint[i]]);
            }
        }
    }
}

/// Whether a feature of the path has the date.
spec fn dated_in(features: Seq<Properties>, path: usize, date: Seq<char>) -> bool {
    exists|n: int|
        0 <= n < features.len() && (#[trigger] features[n]).path_number == path
            && features[n].date() == date
}

proof fn lemma_date_added(features: Seq<Properties>, path: usize, date: Seq<char>)
    requires
        features.len() > 0,
        path_model(features.drop_last(), path).dates.contains(date) <==> dated_in(
            features.drop_last(),
            path,
            date,
        ),
    ensures
        path_model(features, path).dates.contains(date) <==> dated_in(features, path, date),
{
    let rest = features.drop_last();
    let b = path_model(rest, path);
    let m = path_model(features, path);
    let top = features.len() - 1;
    if dated_in(rest, path, date) {
        let n = choose|n: int|
            0 <= n < rest.len() && (#[trigger] rest[n]).path_number == path && rest[n].date()
                == date;
        assert(features[n].path_number == path && features[n].date() == date);
    }
    if dated_in(features, path, date) {
        let n = choose|n: int|
            0 <= n < features.len() && (#[trigger] features[n]).path_number == path
                && features[n].date() == date;
        if n < top {
            assert(rest[n].path_number == path && rest[n].date() == date);
        }
    }
    if features[top].path_number == path {
        if b.dates.contains(date) {
            let k = choose|k: int| 0 <= k < b.dates.len() && b.dates[k] == date;
            assert(m.dates[k] == date);
        }
        if features[top].date() == date {
            assert(m.dates.contains(date) || m.dates.last() == date);
        }
        if m.dates.contains(date) && !b.dates.contains(date) {
            let k = choose|k: int| 0 <= k < m.dates.len() && m.dates[k] == date;
            assert(k == b.dates.len());
        }
    }
}

/// Whether a feature of the path shows the burst.
spec fn shown_in(features: Seq<Properties>, path: usize, burst: (i64, Seq<char>)) -> bool {
    exists|n: int|
        0 <= n < features.len() && (#[trigger] features[n]).path_number == path
            && features[n].key() == burst
}

proof fn lemma_burst_added(features: Seq<Properties>, path: usize, burst: (i64, Seq<char>))
    requires
        features.len() > 0,
        path_model(features.drop_last(), path).bursts.contains(burst) <==> shown_in(
            features.drop_last(),
            path,
            burst,
        ),
    ensures
        path_model(features, path).bursts.contains(burst) <==> shown_in(features, path, burst),
{
    let rest = features.drop_last();
    let b = path_model(rest, path);
    let m = path_model(features, path);
    let top = features.len() - 1;
    if shown_in(rest, path, burst) {
        let n = choose|n: int|
            0 <= n < rest.len() && (#[trigger] rest[n]).path_number == path && rest[n].key()
                == burst;
        assert(features[n].path_number == path && features[n].key() == burst);
    }
    if shown_in(features, path, burst) {
        let n = choose|n: int|
            0 <= n < features.len() && (#[trigger] features[n]).path_number == path
                && features[n].key() == burst;
        if n < top {
            assert(rest[n].path_number == path && rest[n].key() == burst);
        }
    }
    if features[top].path_number == path {
        if b.bursts.contains(burst) {
            let k = choose|k: int| 0 <= k < b.bursts.len() && b.bursts[k] == burst;
            assert(m.bursts[k] == burst);
        }
        if features[top].key() == burst {
            assert(m.bursts.contains(burst) || m.bursts.last() == burst);
        }
        if m.bursts.contains(burst) && !b.bursts.contains(burst) {
            let k = choose|k: int| 0 <= k < m.bursts.len() && m.bursts[k] == burst;
            assert(k == b.bursts.len());
        }
    }
}

// ---------------------------------------------------------------------------
// Path selection
// ---------------------------------------------------------------------------

impl PathModel {
    /// The number of bursts divided by the number of dates, when that quotient
    /// is greater than 1, else 0.
    pub open spec fn bursts_per_acquisition(self) -> int {
        if self.dates.len() == 0 {
            0
        } else {
            let quotient = self.bursts.len() as int / self.dates.len() as int;
            if quotient > 1 {
                quotient
            } else {
                0
            }
        }
    }

    /// Whether this path is to be preferred to another, given how much of the
    /// area each covers: more coverage, then more dates, then fewer bursts per
    /// acquisition, then the smaller number.
    pub open spec fn preferred(self, coverage: Float64, other: PathModel, cover: Float64) -> bool {
        if coverage.scaled() != cover.scaled() {
            coverage.scaled() > cover.scaled()
        } else if self.dates.len() != other.dates.len() {
            self.dates.len() > other.dates.len()
        } else if self.bursts_per_acquisition() != other.bursts_per_acquisition() {
            self.bursts_per_acquisition() < other.bursts_per_acquisition()
        } else {
            self.path < other.path
        }
    }
}

/// Of two different paths, exactly one is preferred.
pub proof fn preference_decides(a: PathModel, ca: Float64, b: PathModel, cb: Float64)
    requires
        a.path != b.path,
    ensures
        a.preferred(ca, b, cb) != b.preferred(cb, a, ca),
{
}

/// What the best path is best in, where `k` is preferred to every other path:
/// no path covers more; of the paths that cover as much, none has more
/// acquisition dates, whatever their numbers of bursts; of those with as many
/// dates, none has fewer bursts per acquisition; and of those that tie in all of
/// that, it has the smallest number.
pub proof fn best_path_leads(paths: Seq<PathModel>, coverage: Seq<Float64>, k: int, i: int)
    requires
        paths.len() == coverage.len(),
        all_numbers(coverage),
        0 <= k < paths.len(),
        0 <= i < paths.len(),
        forall|j: int|
            0 <= j < paths.len() && j != k ==> paths[k].preferred(
                coverage[k],
                #[trigger] paths[j],
                coverage[j],
            ),
    ensures
        coverage[i].at_most(coverage[k]),
        coverage[k].at_most(coverage[i]) ==> paths[i].dates.len() <= paths[k].dates.len(),
        coverage[k].at_most(coverage[i]) && paths[i].dates.len() == paths[k].dates.len()
            ==> paths[k].bursts_per_acquisition() <= paths[i].bursts_per_acquisition(),
        coverage[k].at_most(coverage[i]) && paths[i].dates.len() == paths[k].dates.len()
            && paths[i].bursts_per_acquisition() == paths[k].bursts_per_acquisition()
            ==> paths[k].path <= paths[i].path,
{
    assert(!coverage[i].is_nan());
    assert(!coverage[k].is_nan());
    if i != k {
        assert(paths[k].preferred(coverage[k], paths[i], coverage[i]));
    }
}

/// Bursts per acquisition are the whole bursts that each date has, where that is
/// more than one; a path with fewer than two bursts per date counts as none.
pub proof fn bursts_per_acquisition_are_whole(path: PathModel)
    ensures
        ({
            let n = path.bursts_per_acquisition();
            let (bursts, dates) = (path.bursts.len() as int, path.dates.len() as int);
            &&& n == 0 <==> dates == 0 || bursts < 2 * dates
            &&& n != 0 ==> n >= 2 && n * dates <= bursts < (n + 1) * dates
        }),
{
    let (bursts, dates) = (path.bursts.len() as int, path.dates.len() as int);
    if dates > 0 {
        let q = bursts / dates;
        vstd::arithmetic::div_mod::lemma_fundamental_div_mod(bursts, dates);
        vstd::arithmetic::div_mod::lemma_mod_bound(bursts, dates);
        assert(q * dates <= bursts < (q + 1) * dates) by (nonlinear_arith)
            requires
                bursts == dates * q + bursts % dates,
                0 <= bursts % dates < dates,
        ;
        assert(q >= 2 <==> bursts >= 2 * dates) by (nonlinear_arith)
            requires
                q * dates <= bursts < (q + 1) * dates,
                dates > 0,
        ;
        assert(q >= 0) by (nonlinear_arith)
            requires
                bursts < (q + 1) * dates,
                dates > 0,
                bursts >= 0,
        ;
    }
}

/// Returns the number of unique burst (id, subswath) pairs divided by the
/// number of unique dates, when that quotient is > 1. Returns 0 if there is
/// only 1 burst per acquisition (which then triggers the fallback).
pub fn bursts_per_acquisition_gt1(accum: &PathAccum) -> (r: usize)
    ensures
        r == accum@.bursts_per_acquisition(),
{
    if accum.dates.len() == 0 {
        return 0;
    }
    let bpa: usize = accum.seen_bursts.len() / accum.dates.len();
    if bpa > 1 {
        bpa
    } else {
        0
    }
}

/// Whether all coverages are numbers.
pub open spec fn all_numbers(coverage: Seq<Float64>) -> bool {
    forall|i: int| 0 <= i < coverage.len() ==> !(#[trigger] coverage[i]).is_nan()
}

/// Whether the numbers of the paths are all different.
pub open spec fn paths_differ(paths: Seq<PathAccum>) -> bool {
    forall|i: int, j: int|
        0 <= i < j < paths.len() ==> (#[trigger] paths[i]).path != (#[trigger] paths[j]).path
}

fn better(a: &PathAccum, ca: Float64, b: &PathAccum, cb: Float64) -> (r: bool)
    ensures
        !ca.is_nan() && !cb.is_nan() ==> r == a@.preferred(ca, b@, cb),
{
    if cb.lt(ca) {
        return true;
    }
    if ca.lt(cb) {
        return false;
    }
    if a.dates.len() != b.dates.len() {
        return a.dates.len() > b.dates.len();
    }
    let bpa_a: usize = bursts_per_acquisition_gt1(a);
    let bpa_b: usize = bursts_per_acquisition_gt1(b);
    if bpa_a != bpa_b {
        return bpa_a < bpa_b;
    }
    a.path < b.path
}

/// Selects the best path using the priority chain:
/// 1. Most AOI coverage (descending).
/// 2. Most acquisition dates (descending).
/// 3. Fewest bursts per acquisition > 1 (ascending): storage optimisation.
/// 4. Smallest path number (ascending): tiebreaker.
///
/// `coverage` holds the coverage of each path, and the result is a position in
/// `paths`. A coverage that is no number ties with every other; then the result
/// is some path.
pub fn select_best_path(paths: &Vec<PathAccum>, coverage: &Vec<Float64>) -> (r: Result<
    usize,
    FlightPathError,
>)
    requires
        paths.len() == coverage.len(),
        paths_differ(paths@),
    ensures
        match r {
            Ok(k) => k < paths.len() && (all_numbers(coverage@) ==> forall|i: int|
                0 <= i < paths.len() && i != k ==> paths[k as int]@.preferred(
                    coverage[k as int],
                    (#[trigger] paths[i])@,
                    coverage[i],
                )),
            Err(error) => paths.len() == 0 && error == FlightPathError::InsufficientMaterial,
        },
        match r {
            Ok(k) => all_numbers(coverage@) ==> forall|i: int|
                #![trigger paths[i]]
                #![trigger coverage[i]]
                0 <= i < paths.len() ==> coverage[i].at_most(coverage[k as int]) && (
                coverage[k as int].at_most(coverage[i]) ==> paths[i].dates.len()
                    <= paths[k as int].dates.len()),
            Err(_) => true,
        },
{
    if paths.len() == 0 {
        return Err(FlightPathError::InsufficientMaterial);
    }
    let mut best: usize = 0;
    for n in 1..paths.len()
        invariant
            best < n <= paths.len(),
            paths.len() == coverage.len(),
            paths_differ(paths@),
            all_numbers(coverage@) ==> forall|i: int|
                0 <= i < n && i != best ==> paths[best as int]@.preferred(
                    coverage[best as int],
                    (#[trigger] paths[i])@,
                    coverage[i],
                ),
    {
        let ghost previous = best as int;
        if better(&paths[n], coverage[n], &paths[best], coverage[best]) {
            best = n;
        }
        proof {
            if all_numbers(coverage@) {
                let p = paths[previous];
                let q = paths[n as int];
                assert(p.path != q.path);
                preference_decides(p@, coverage[previous], q@, coverage[n as int]);
                assert forall|i: int| 0 <= i < n + 1 && i != best implies paths[best as int]@.preferred(
                    coverage[best as int],
                    (#[trigger] paths[i])@,
                    coverage[i],
                ) by {
                    if best == n && i != previous {
                        assert(p@.preferred(coverage[previous], paths[i]@, coverage[i]));
                    }
                }
            }
        }
    }
    proof {
        if all_numbers(coverage@) {
            assert forall|i: int|
                #![trigger paths[i]]
                #![trigger coverage[i]]
                0 <= i < paths.len() implies coverage[i].at_most(coverage[best as int]) && (
            coverage[best as int].at_most(coverage[i]) ==> paths[i].dates.len()
                <= paths[best as int].dates.len()) by {
                let all = models(paths@);
                assert forall|j: int| 0 <= j < all.len() && j != best implies all[best as int].preferred(
                    coverage[best as int],
                    #[trigger] all[j],
                    coverage[j],
                ) by {
                    assert(all[j] == paths[j]@);
                    assert(all[best as int] == paths[best as int]@);
                }
                best_path_leads(all, coverage@, best as int, i);
                assert(all[i] == paths[i]@);
                assert(all[i].dates.len() == paths[i].dates.len());
                assert(all[best as int].dates.len() == paths[best as int].dates.len());
            }
        }
    }
    Ok(best)
}

/// The bits of the number nearest to one hundredth: an explicit path has to
/// cover at least this part of the area.
pub const MIN_COVERAGE: u64 = 0x3f84_7ae1_47ae_147b;

/// The least coverage is one hundredth, up to half a unit in its last place.
pub proof fn min_coverage_is_one_hundredth()
    ensures
        ({
            let error = 100 * (Float64 { bits: MIN_COVERAGE }).scaled() - float64::units(1);
            let unit = vstd::arithmetic::power2::pow2(1015) as int;
            -50 * unit <= error <= 50 * unit
        }),
{
    vstd::arithmetic::power2::lemma2_to64();
    vstd::arithmetic::power2::lemma2_to64_rest();
    vstd::arithmetic::power2::lemma_pow2_adds(1015, 59);
    let unit = vstd::arithmetic::power2::pow2(1015) as int;
    let m = float64::mantissa(MIN_COVERAGE as int);
    assert(m == 0x14_7ae1_47ae_147b);
    assert(float64::exponent(MIN_COVERAGE as int) == 1015);
    assert(float64::magnitude(MIN_COVERAGE) == MIN_COVERAGE);
    assert(float64::units(1) == unit * 0x800_0000_0000_0000);
    vstd::arithmetic::power2::lemma_pow2_pos(1015);
    assert(100 * (m * unit) - unit * 0x800_0000_0000_0000 == 12 * unit) by (nonlinear_arith)
        requires
            m == 0x14_7ae1_47ae_147b,
    ;
}

/// Whether a path covers too little of the area to be asked for.
pub open spec fn covers_too_little(coverage: Float64) -> bool {
    coverage.below(Float64 { bits: MIN_COVERAGE })
}

/// Whether the path at position `k` is the one to take: the one that was asked for,
/// where it covers enough, else the one that is preferred to all others.
pub open spec fn takes(
    paths: Seq<PathAccum>,
    coverage: Seq<Float64>,
    explicit: Option<u32>,
    k: int,
) -> bool {
    &&& 0 <= k < paths.len()
    &&& match explicit {
        Some(path) => paths[k].path == path && !covers_too_little(coverage[k]),
        None => all_numbers(coverage) ==> forall|i: int|
            0 <= i < paths.len() && i != k ==> paths[k]@.preferred(
                coverage[k],
                (#[trigger] paths[i])@,
                coverage[i],
            ),
    }
}

/// A path that was asked for is the one that is taken, however little it is
/// preferred, as long as it covers a hundredth of the area. Where none was asked for,
/// none covers more than the one that is taken, and none that covers as much has more
/// dates.
pub proof fn asked_paths_are_taken(
    paths: Seq<PathAccum>,
    coverage: Seq<Float64>,
    explicit: Option<u32>,
    k: int,
    i: int,
)
    requires
        paths.len() == coverage.len(),
        takes(paths, coverage, explicit, k),
        0 <= i < paths.len(),
    ensures
        explicit matches Some(path) ==> paths[k].path == path && (coverage[k].is_nan()
            || coverage[k].scaled() >= (Float64 { bits: MIN_COVERAGE }).scaled()),
        explicit is None && all_numbers(coverage) ==> coverage[i].at_most(coverage[k]) && (
        coverage[k].at_most(coverage[i]) ==> paths[i].dates.len() <= paths[k].dates.len()),
{
    let least = Float64 { bits: MIN_COVERAGE };
    assert(!least.is_nan());
    if explicit is None && all_numbers(coverage) {
        let all = models(paths);
        assert forall|j: int| 0 <= j < all.len() && j != k implies all[k].preferred(
            coverage[k],
            #[trigger] all[j],
            coverage[j],
        ) by {
            assert(all[j] == paths[j]@);
            assert(all[k] == paths[k]@);
        }
        best_path_leads(all, coverage, k, i);
        assert(all[i] == paths[i]@);
        assert(all[i].dates.len() == paths[i].dates.len());
        assert(all[k].dates.len() == paths[k].dates.len());
    }
}

/// Chooses the path to take: the one that was asked for, if images of it cover
/// a meaningful part of the area, else the best one. The result is a position in
/// `paths`.
pub fn choose_path(paths: &Vec<PathAccum>, coverage: &Vec<Float64>, explicit: Option<u32>) -> (r:
    Result<usize, FlightPathError>)
    requires
        paths.len() == coverage.len(),
        paths_differ(paths@),
    ensures
        match (explicit, r) {
            (_, Ok(k)) => takes(paths@, coverage@, explicit, k as int),
            (Some(path), Err(error)) => error == FlightPathError::InvalidPath && forall|i: int|
                0 <= i < paths.len() && (#[trigger] paths[i]).path == path ==> covers_too_little(
                    coverage[i],
                ),
            (None, Err(error)) => paths.len() == 0 && error
                == FlightPathError::InsufficientMaterial,
        },
{
    match explicit {
        None => select_best_path(paths, coverage),
        Some(path) => {
            for k in 0..paths.len()
                invariant
                    explicit == Some(path),
                    paths.len() == coverage.len(),
                    paths_differ(paths@),
                    forall|i: int| 0 <= i < k ==> (#[trigger] paths[i]).path != path,
            {
                if paths[k].path == path as usize {
                    if coverage[k].lt(Float64 { bits: MIN_COVERAGE }) {
                        assert forall|i: int|
                            0 <= i < paths.len() && (#[trigger] paths[i]).path
                                == path implies covers_too_little(coverage[i]) by {
                            if i < k {
                                assert(paths[i].path != paths[k as int].path);
                            } else if i > k {
                                assert(paths[k as int].path != paths[i].path);
                            }
                        }
                        return Err(FlightPathError::InvalidPath);
                    }
                    return Ok(k);
                }
            }
            Err(FlightPathError::InvalidPath)
        },
    }
}

// ---------------------------------------------------------------------------
// Adjacent-burst fallback
// ---------------------------------------------------------------------------

/// The burst index next to another: the one before, but 1 next to 0.
pub open spec fn adjacent_index(index: i64) -> int {
    if index == 0 {
        1
    } else {
        index - 1
    }
}

/// Whether a feature is one of a path that shows a burst.
pub open spec fn shows(feature: Properties, path: usize, index: int, subswath: Seq<char>) -> bool {
    feature.path_number == path && feature.burst.burst_index == index && feature.burst.subswath@
        == subswath
}

/// The positions of the features of a path that show a burst.
pub open spec fn showing(
    features: Seq<Properties>,
    path: usize,
    index: int,
    subswath: Seq<char>,
) -> Seq<int>
    decreases features.len(),
{
    if features.len() == 0 {
        Seq::empty()
    } else {
        let before = showing(features.drop_last(), path, index, subswath);
        let last = features.last();
        if shows(last, path, index, subswath) {
            before.push(features.len() - 1)
        } else {
            before
        }
    }
}

/// Whether the features at these positions show only one burst per acquisition:
/// any two of one date show the same burst of the same subswath.
pub open spec fn one_burst_per_date(features: Seq<Properties>, at: Seq<int>) -> bool {
    forall|i: int, j: int|
        #![trigger features[at[i]], features[at[j]]]
        0 <= i < at.len() && 0 <= j < at.len() && features[at[i]].date() == features[at[j]].date()
            ==> features[at[i]].key() == features[at[j]].key()
}

/// The positions that are not among others.
pub open spec fn missing_from(at: Seq<int>, others: Seq<int>) -> Seq<int>
    decreases at.len(),
{
    if at.len() == 0 {
        Seq::empty()
    } else {
        let before = missing_from(at.drop_last(), others);
        if others.contains(at.last()) {
            before
        } else {
            before.push(at.last())
        }
    }
}

/// The selected features with those of an adjacent burst that are not among
/// them, where there is only one burst per acquisition. The burst of the first
/// selected feature is the one that gets a neighbour.
pub open spec fn with_adjacent(
    features: Seq<Properties>,
    selected: PathModel,
) -> Seq<int> {
    if selected.features.len() == 0 || !one_burst_per_date(features, selected.features) {
        selected.features
    } else {
        let first = features[selected.features[0]];
        selected.features + missing_from(
            showing(
                features,
                selected.path,
                adjacent_index(first.burst.burst_index),
                first.burst.subswath@,
            ),
            selected.features,
        )
    }
}

proof fn lemma_showing(features: Seq<Properties>, path: usize, index: int, subswath: Seq<char>)
    ensures
        ({
            let found = showing(features, path, index, subswath);
            &&& found.no_duplicates()
            &&& forall|i: int|
                0 <= i < found.len() ==> 0 <= #[trigger] found[i] < features.len() && shows(
                    features[found[i]],
                    path,
                    index,
                    subswath,
                )
        }),
    decreases features.len(),
{
    if features.len() > 0 {
        let rest = features.drop_last();
        lemma_showing(rest, path, index, subswath);
        let found = showing(features, path, index, subswath);
        let before = showing(rest, path, index, subswath);
        assert forall|i: int| 0 <= i < found.len() implies 0 <= #[trigger] found[i]
            < features.len() && shows(features[found[i]], path, index, subswath) by {
            if i < before.len() {
                assert(found[i] == before[i]);
                assert(rest[before[i]] == features[before[i]]);
            }
        }
    }
}

proof fn lemma_missing_from(at: Seq<int>, others: Seq<int>)
    requires
        at.no_duplicates(),
    ensures
        missing_from(at, others).no_duplicates(),
        forall|n: int|
            #[trigger] missing_from(at, others).contains(n) <==> at.contains(n) && !others.contains(
                n,
            ),
    decreases at.len(),
{
    if at.len() > 0 {
        let rest = at.drop_last();
        let before = missing_from(rest, others);
        lemma_missing_from(rest, others);
        assert(!rest.contains(at.last())) by {
            if rest.contains(at.last()) {
                let k = choose|k: int| 0 <= k < rest.len() && rest[k] == at.last();
                assert(at[k] == at[at.len() - 1]);
            }
        }
        assert(!before.contains(at.last()));
        assert forall|n: int|
            #[trigger] missing_from(at, others).contains(n) <==> at.contains(n) && !others.contains(
                n,
            ) by {
            assert(at.contains(n) <==> rest.contains(n) || n == at.last()) by {
                if at.contains(n) {
                    let k = choose|k: int| 0 <= k < at.len() && at[k] == n;
                    if k < rest.len() {
                        assert(rest[k] == n);
                    }
                }
                if rest.contains(n) {
                    let k = choose|k: int| 0 <= k < rest.len() && rest[k] == n;
                    assert(at[k] == n);
                }
                assert(at[at.len() - 1] == at.last());
            }
            let after = missing_from(at, others);
            if !others.contains(at.last()) {
                assert(after == before.push(at.last()));
                if before.contains(n) {
                    let k = choose|k: int| 0 <= k < before.len() && before[k] == n;
                    assert(after[k] == n);
                }
                assert(after[before.len() as int] == at.last());
                if after.contains(n) && n != at.last() {
                    let k = choose|k: int| 0 <= k < after.len() && after[k] == n;
                    assert(before[k] == n);
                }
            }
        }
        assert(missing_from(at, others).no_duplicates()) by {
            let after = missing_from(at, others);
            assert forall|i: int, j: int| 0 <= i < j < after.len() implies after[i] != after[j] by {
                if !others.contains(at.last()) && j == before.len() {
                    assert(before.contains(before[i]));
                }
            }
        }
    }
}

/// The fallback keeps what is selected, in order, and lists no feature twice. It
/// adds nothing where an acquisition shows two bursts; where it adds, each
/// feature that it adds is of the same path, the same subswath and the adjacent
/// burst.
pub proof fn fallback_lists_each_once(features: Seq<Properties>, selected: PathModel)
    ensures
        selected.features.is_prefix_of(with_adjacent(features, selected)),
        selected.features.no_duplicates() ==> with_adjacent(features, selected).no_duplicates(),
        !one_burst_per_date(features, selected.features) ==> with_adjacent(features, selected)
            == selected.features,
        forall|n: int|
            #[trigger] with_adjacent(features, selected).contains(n) && !selected.features.contains(
                n,
            ) ==> 0 <= n < features.len() && shows(
                features[n],
                selected.path,
                adjacent_index(features[selected.features[0]].burst.burst_index),
                features[selected.features[0]].burst.subswath@,
            ),
{
    let result = with_adjacent(features, selected);
    if selected.features.len() > 0 && one_burst_per_date(features, selected.features) {
        let first = features[selected.features[0]];
        let found = showing(
            features,
            selected.path,
            adjacent_index(first.burst.burst_index),
            first.burst.subswath@,
        );
        lemma_showing(
            features,
            selected.path,
            adjacent_index(first.burst.burst_index),
            first.burst.subswath@,
        );
        lemma_missing_from(found, selected.features);
        let more = missing_from(found, selected.features);
        assert(result == selected.features + more);
        assert(result.take(selected.features.len() as int) =~= selected.features);
        if selected.features.no_duplicates() {
            assert forall|i: int, j: int| 0 <= i < j < result.len() implies result[i] != result[j] by {
                let n = selected.features.len() as int;
                if j >= n {
                    assert(more.contains(more[j - n]));
                    if i < n {
                        assert(selected.features.contains(selected.features[i]));
                    }
                }
            }
        }
        assert forall|n: int|
            #[trigger] result.contains(n) && !selected.features.contains(n) implies 0 <= n
            < features.len() && shows(
            features[n],
            selected.path,
            adjacent_index(first.burst.burst_index),
            first.burst.subswath@,
        ) by {
            let k = choose|k: int| 0 <= k < result.len() && result[k] == n;
            if k < selected.features.len() {
                assert(selected.features[k] == n);
            } else {
                assert(more[k - selected.features.len()] == n);
                assert(more.contains(n));
                let m = choose|m: int| 0 <= m < found.len() && found[m] == n;
                assert(found[m] == n);
            }
        }
    } else {
        assert(result.take(selected.features.len() as int) =~= selected.features);
    }
}

fn find_showing(features: &Vec<Properties>, path: usize, index: i64, subswath: &str) -> (r: Vec<
    usize,
>)
    ensures
        positions(r@) == showing(features@, path, index as int, subswath@),
        forall|i: int| 0 <= i < r.len() ==> #[trigger] r[i] < features.len(),
{
    let mut found: Vec<usize> = Vec::new();
    let ghost all = features@;
    assert(positions(found@) =~= showing(all.take(0), path, index as int, subswath@));
    for n in 0..features.len()
        invariant
            all == features@,
            positions(found@) == showing(all.take(n as int), path, index as int, subswath@),
            forall|i: int| 0 <= i < found.len() ==> #[trigger] found[i] < n,
    {
        proof {
            assert(all.take(n + 1).drop_last() =~= all.take(n as int));
            assert(all.take(n + 1).last() == all[n as int]);
        }
        let ghost before = found@;
        let f = &features[n];
        if f.path_number == path && f.burst.burst_index == index && text_eq(
            f.burst.subswath.as_str(),
            subswath,
        ) {
            found.push(n);
            assert(positions(found@) =~= positions(before).push(n as int));
        }
    }
    assert(all.take(features.len() as int) =~= all);
    found
}

proof fn lemma_no_lower_index(features: Seq<Properties>, path: usize, subswath: Seq<char>)
    ensures
        showing(features, path, i64::MIN - 1, subswath) == Seq::<int>::empty(),
    decreases features.len(),
{
    if features.len() > 0 {
        lemma_no_lower_index(features.drop_last(), path, subswath);
    }
}

/// Whether the features at these positions show only one burst per acquisition.
fn shows_one_burst_per_date(features: &Vec<Properties>, at: &Vec<usize>) -> (r: bool)
    requires
        forall|i: int| 0 <= i < at.len() ==> #[trigger] at[i] < features.len(),
        forall|i: int| 0 <= i < at.len() ==> features[#[trigger] at[i] as int].dated(),
    ensures
        r == one_burst_per_date(features@, positions(at@)),
{
    let ghost all = positions(at@);
    for i in 0..at.len()
        invariant
            all == positions(at@),
            forall|i: int| 0 <= i < at.len() ==> #[trigger] at[i] < features.len(),
            forall|i: int| 0 <= i < at.len() ==> features[#[trigger] at[i] as int].dated(),
            forall|k: int, j: int|
                #![trigger features[all[k]], features[all[j]]]
                0 <= k < i && 0 <= j < at.len() && features[all[k]].date() == features[all[j]].date()
                    ==> features[all[k]].key() == features[all[j]].key(),
    {
        let a = &features[at[i]];
        assert(all[i as int] == at[i as int] as int);
        for j in 0..at.len()
            invariant
                all == positions(at@),
                i < at.len(),
                *a == features[all[i as int]],
                a.dated(),
                forall|i: int| 0 <= i < at.len() ==> #[trigger] at[i] < features.len(),
                forall|i: int| 0 <= i < at.len() ==> features[#[trigger] at[i] as int].dated(),
                forall|k: int|
                    0 <= k < j && a.date() == (#[trigger] features[all[k]]).date() ==> a.key()
                        == features[all[k]].key(),
        {
            let b = &features[at[j]];
            assert(all[j as int] == at[j as int] as int);
            if opt_text_eq(&a.read_date(), &b.read_date()) {
                if a.burst.burst_index != b.burst.burst_index || !text_eq(
                    a.burst.subswath.as_str(),
                    b.burst.subswath.as_str(),
                ) {
                    assert(features[all[i as int]].key() != features[all[j as int]].key());
                    return false;
                }
            }
        }
    }
    true
}

/// Leaves out the positions that are among others.
fn take_missing(at: &Vec<usize>, others: &Vec<usize>) -> (r: Vec<usize>)
    ensures
        positions(r@) == missing_from(positions(at@), positions(others@)),
        forall|i: int| 0 <= i < r.len() ==> at@.contains(#[trigger] r[i]),
{
    let mut out: Vec<usize> = Vec::new();
    let ghost all = positions(at@);
    let ghost have = positions(others@);
    assert(positions(out@) =~= missing_from(all.take(0), have));
    for n in 0..at.len()
        invariant
            all == positions(at@),
            have == positions(others@),
            positions(out@) == missing_from(all.take(n as int), have),
            forall|i: int| 0 <= i < out.len() ==> at@.contains(#[trigger] out[i]),
    {
        proof {
            assert(all.take(n + 1).drop_last() =~= all.take(n as int));
            assert(all.take(n + 1).last() == at[n as int] as int);
        }
        let ghost before = out@;
        let mut known = false;
        for k in 0..others.len()
            invariant
                have == positions(others@),
                n < at.len(),
                known <==> exists|i: int| 0 <= i < k && #[trigger] others[i] == at[n as int],
        {
            if others[k] == at[n] {
                known = true;
            }
        }
        assert(known <==> have.contains(at[n as int] as int)) by {
            if known {
                let i = choose|i: int| 0 <= i < others.len() && #[trigger] others[i] == at[n as int];
                assert(have[i] == at[n as int] as int);
            }
            if have.contains(at[n as int] as int) {
                let i = choose|i: int| 0 <= i < have.len() && have[i] == at[n as int] as int;
                assert(others[i] == at[n as int]);
            }
        }
        if !known {
            out.push(at[n]);
            assert(positions(out@) =~= positions(before).push(at[n as int] as int));
        }
    }
    assert(all.take(at.len() as int) =~= all);
    out
}

/// If the selected features contain only one unique burst per acquisition,
/// adds an adjacent burst from the same subswath by decrementing the burst
/// index (or incrementing if the index is 0).
///
/// The adjacent burst is looked up from the full feature collection returned
/// by ASF to ensure it exists in the database. Positions are given back, none of
/// them twice.
pub fn apply_adjacent_burst_fallback(selected: &PathAccum, features: &Vec<Properties>) -> (r: Vec<
    usize,
>)
    requires
        forall|i: int|
            0 <= i < selected.features.len() ==> #[trigger] selected.features[i] < features.len(),
        forall|i: int|
            0 <= i < selected.features.len() ==> features[#[trigger] selected.features[i] as int].dated(),
    ensures
        positions(r@) == with_adjacent(features@, selected@),
        selected@.features.no_duplicates() ==> positions(r@).no_duplicates(),
        forall|i: int| 0 <= i < r.len() ==> #[trigger] r[i] < features.len(),
{
    proof {
        fallback_lists_each_once(features@, selected@);
    }
    let mut out = selected.features.clone();
    assert(out@ =~= selected.features@);
    if selected.features.len() == 0 || !shows_one_burst_per_date(features, &selected.features) {
        return out;
    }
    let first = &features[selected.features[0]];
    assert(selected@.features[0] == selected.features[0] as int);
    let index: i64 = first.burst.burst_index;
    if index == i64::MIN {
        proof {
            lemma_no_lower_index(features@, selected.path, first.burst.subswath@);
            assert(positions(out@) =~= selected@.features + Seq::<int>::empty());
        }
        return out;
    }
    let adjacent: i64 = if index == 0 {
        1
    } else {
        index - 1
    };
    let found = find_showing(
        features,
        selected.path,
        adjacent,
        first.burst.subswath.as_str(),
    );
    let mut fresh = take_missing(&found, &selected.features);
    let ghost more = fresh@;
    out.append(&mut fresh);
    assert(positions(out@) =~= positions(selected.features@) + positions(more));
    assert forall|i: int| 0 <= i < out.len() implies #[trigger] out[i] < features.len() by {
        if i >= selected.features.len() {
            assert(found@.contains(more[i - selected.features.len()]));
        }
    }
    out
}

// ---------------------------------------------------------------------------
// Burst list builder
// ---------------------------------------------------------------------------

/// The key of the burst that a feature of the granule `scene` shows.
pub open spec fn burst_key(feature: Properties, scene: Seq<char>) -> BurstKeyModel {
    key_of(scene, text::upper_text(feature.burst.subswath@), feature.burst.burst_index as int)
}

/// The key of a VV burst of a granule, by its subswath and its index in it.
pub open spec fn key_of(scene: Seq<char>, subswath: Seq<char>, index: int) -> BurstKeyModel {
    BurstKeyModel {
        granule: scene,
        subswath,
        polarization: "VV"@,
        index: number::decimal(index),
    }
}

/// Where a burst lies below the `/archive` mount point, without an extension.
pub open spec fn archive_base(key: BurstKeyModel) -> Seq<char> {
    paths::joined_path(
        paths::joined_path(
            paths::joined_path(paths::joined_path("/archive"@, key.granule), key.subswath),
            key.polarization,
        ),
        key.index,
    )
}

/// The files of a burst, below the `/archive` mount point.
pub open spec fn burst_files(key: BurstKeyModel) -> BurstPathsModel {
    BurstPathsModel {
        data: archive_base(key) + ".tiff"@,
        metadata: archive_base(key) + ".xml"@,
    }
}

/// The burst list of selected features, given the granule of each.
pub open spec fn list_of(features: Seq<Properties>, scenes: Seq<Seq<char>>, at: Seq<int>) -> Map<
    BurstKeyModel,
    BurstPathsModel,
>
    decreases at.len(),
{
    if at.len() == 0 {
        Map::empty()
    } else {
        let key = burst_key(features[at.last()], scenes.last());
        list_of(features, scenes.drop_last(), at.drop_last()).insert(key, burst_files(key))
    }
}

fn entry_for(feature: &Properties, scene: &str) -> (r: (BurstKey, BurstPaths))
    ensures
        r.0@ == burst_key(*feature, scene@),
        r.1@ == burst_files(burst_key(*feature, scene@)),
{
    let subswath = feature.burst.subswath.as_str().to_uppercase();
    burst_entry(scene, subswath, feature.burst.burst_index)
}

/// The entry of a VV burst in a burst list: its key and its files.
pub fn burst_entry(scene: &str, subswath: String, burst_index: i64) -> (r: (BurstKey, BurstPaths))
    ensures
        r.0@ == key_of(scene@, subswath@, burst_index as int),
        r.1@ == burst_files(key_of(scene@, subswath@, burst_index as int)),
{
    let index = decimal_i64(burst_index);
    let base = join(
        join(join(join("/archive", scene).as_str(), subswath.as_str()).as_str(), "VV").as_str(),
        index.as_str(),
    );
    let paths = BurstPaths {
        data: concat2(base.as_str(), ".tiff"),
        metadata: concat2(base.as_str(), ".xml"),
    };
    (
        BurstKey {
            granule: scene.to_owned(),
            subswath,
            polarization: "VV".to_owned(),
            index,
        },
        paths,
    )
}

/// Builds the `burst_list.json` structure from the selected features, given the
/// granule of each.
///
/// Paths are relative to `/archive`, the mount point used inside download
/// containers, rather than the host-side `archive_root`:
/// `/{scene_name}/{subswath}/{polarization}/{burst_index}.{ext}`
pub fn build_burst_list(features: &Vec<Properties>, scenes: &Vec<String>, at: &Vec<usize>) -> (r:
    BurstList)
    requires
        scenes.len() == at.len(),
        forall|i: int| 0 <= i < at.len() ==> #[trigger] at[i] < features.len(),
    ensures
        r.wf(),
        r@ == list_of(features@, text::texts(scenes@), positions(at@)),
{
    let mut list = BurstList::new();
    let ghost all = positions(at@);
    let ghost names = text::texts(scenes@);
    for i in 0..at.len()
        invariant
            all == positions(at@),
            names == text::texts(scenes@),
            scenes.len() == at.len(),
            forall|i: int| 0 <= i < at.len() ==> #[trigger] at[i] < features.len(),
            list.wf(),
            list@ == list_of(features@, names.take(i as int), all.take(i as int)),
    {
        let n: usize = at[i];
        let (key, paths) = entry_for(&features[n], scenes[i].as_str());
        proof {
            assert(all.take(i + 1).drop_last() =~= all.take(i as int));
            assert(all.take(i + 1).last() == n as int);
            assert(names.take(i + 1).drop_last() =~= names.take(i as int));
            assert(names.take(i + 1).last() == scenes[i as int]@);
        }
        list.insert(key, paths);
    }
    assert(all.take(at.len() as int) =~= all);
    assert(names.take(at.len() as int) =~= names);
    list
}

/// The burst list of one acquisition date.
#[derive(Debug)]
pub struct BurstStitch {
    pub date: String,
    pub list: BurstList,
}

/// Burst lists per acquisition date: date (YYYY-mm-dd) → burst list.
#[derive(Debug)]
pub struct BurstStitchMap {
    pub dates: Vec<BurstStitch>,
}

/// The burst list of each date.
pub open spec fn stitch_contents(dates: Seq<BurstStitch>) -> Map<
    Seq<char>,
    Map<BurstKeyModel, BurstPathsModel>,
>
    decreases dates.len(),
{
    if dates.len() == 0 {
        Map::empty()
    } else {
        stitch_contents(dates.drop_last()).insert(dates.last().date@, dates.last().list@)
    }
}

impl View for BurstStitchMap {
    type V = Map<Seq<char>, Map<BurstKeyModel, BurstPathsModel>>;

    open spec fn view(&self) -> Map<Seq<char>, Map<BurstKeyModel, BurstPathsModel>> {
        stitch_contents(self.dates@)
    }
}

/// Whether no date occurs twice.
pub open spec fn dates_unique(dates: Seq<BurstStitch>) -> bool {
    forall|i: int, j: int|
        0 <= i < j < dates.len() ==> (#[trigger] dates[i]).date@ != (#[trigger] dates[j]).date@
}

impl BurstStitchMap {
    /// Whether no date, and no burst of a date, occurs twice.
    pub open spec fn wf(self) -> bool {
        &&& dates_unique(self.dates@)
        &&& forall|i: int| 0 <= i < self.dates.len() ==> (#[trigger] self.dates[i]).list.wf()
    }
}

/// The per-date burst lists of selected features, given the granule of each.
pub open spec fn stitch_of(features: Seq<Properties>, scenes: Seq<Seq<char>>, at: Seq<int>) -> Map<
    Seq<char>,
    Map<BurstKeyModel, BurstPathsModel>,
>
    decreases at.len(),
{
    if at.len() == 0 {
        Map::empty()
    } else {
        let before = stitch_of(features, scenes.drop_last(), at.drop_last());
        let feature = features[at.last()];
        let key = burst_key(feature, scenes.last());
        let list = if before.dom().contains(feature.date()) {
            before[feature.date()]
        } else {
            Map::empty()
        };
        before.insert(feature.date(), list.insert(key, burst_files(key)))
    }
}

proof fn lemma_stitch_dom(dates: Seq<BurstStitch>, date: Seq<char>)
    ensures
        stitch_contents(dates).dom().contains(date) <==> exists|i: int|
            0 <= i < dates.len() && (#[trigger] dates[i]).date@ == date,
    decreases dates.len(),
{
    if dates.len() > 0 {
        let rest = dates.drop_last();
        lemma_stitch_dom(rest, date);
        assert forall|i: int| 0 <= i < rest.len() implies rest[i] == dates[i] by {}
        if dates.last().date@ == date {
            assert(dates[dates.len() - 1].date@ == date);
        } else if stitch_contents(rest).dom().contains(date) {
            let i = choose|i: int| 0 <= i < rest.len() && (#[trigger] rest[i]).date@ == date;
            assert(dates[i].date@ == date);
        } else if exists|i: int| 0 <= i < dates.len() && (#[trigger] dates[i]).date@ == date {
            let i = choose|i: int| 0 <= i < dates.len() && (#[trigger] dates[i]).date@ == date;
            assert(rest[i].date@ == date);
        }
    }
}

proof fn lemma_stitch_at(dates: Seq<BurstStitch>, i: int)
    requires
        dates_unique(dates),
        0 <= i < dates.len(),
    ensures
        stitch_contents(dates).dom().contains(dates[i].date@),
        stitch_contents(dates)[dates[i].date@] == dates[i].list@,
    decreases dates.len(),
{
    if i < dates.len() - 1 {
        let rest = dates.drop_last();
        assert(rest[i] == dates[i]);
        lemma_stitch_at(rest, i);
    }
}

proof fn lemma_stitch_update(dates: Seq<BurstStitch>, i: int, item: BurstStitch)
    requires
        dates_unique(dates),
        0 <= i < dates.len(),
        dates[i].date@ == item.date@,
    ensures
        stitch_contents(dates.update(i, item)) == stitch_contents(dates).insert(
            item.date@,
            item.list@,
        ),
    decreases dates.len(),
{
    let updated = dates.update(i, item);
    let rest = dates.drop_last();
    if i == dates.len() - 1 {
        assert(updated.drop_last() =~= rest);
        assert(stitch_contents(updated) =~= stitch_contents(dates).insert(
            item.date@,
            item.list@,
        ));
    } else {
        assert(updated.drop_last() =~= rest.update(i, item));
        lemma_stitch_update(rest, i, item);
        assert(dates[i].date@ != dates[dates.len() - 1].date@);
        assert(stitch_contents(updated) =~= stitch_contents(dates).insert(
            item.date@,
            item.list@,
        ));
    }
}

impl BurstStitchMap {
    /// Puts a burst into the list of a date.
    pub fn insert(&mut self, date: String, key: BurstKey, paths: BurstPaths)
        requires
            old(self).wf(),
        ensures
            final(self).wf(),
            final(self)@ == old(self)@.insert(
                date@,
                (if old(self)@.dom().contains(date@) {
                    old(self)@[date@]
                } else {
                    Map::empty()
                }).insert(key@, paths@),
            ),
    {
        proof {
            lemma_stitch_dom(self.dates@, date@);
        }
        let mut k: usize = 0;
        while k < self.dates.len() && !text_eq(self.dates[k].date.as_str(), date.as_str())
            invariant
                k <= self.dates.len(),
                *self == *old(self),
                forall|i: int| 0 <= i < k ==> (#[trigger] self.dates[i]).date@ != date@,
            ensures
                k < self.dates.len() ==> self.dates[k as int].date@ == date@,
            decreases self.dates.len() - k,
        {
            k = k + 1;
        }
        let ghost before = self.dates@;
        if k < self.dates.len() {
            proof {
                lemma_stitch_at(before, k as int);
            }
            let mut list = BurstList::new();
            std::mem::swap(&mut list, &mut self.dates[k].list);
            list.insert(key, paths);
            let item = BurstStitch { date, list };
            self.dates.set(k, item);
            proof {
                assert(self.dates@ =~= before.update(k as int, item));
                lemma_stitch_update(before, k as int, item);
                assert forall|a: int, b: int|
                    0 <= a < b < self.dates.len() implies (#[trigger] self.dates@[a]).date@ != (
                #[trigger] self.dates@[b]).date@ by {
                    assert(before[a].date@ != before[b].date@);
                }
                assert forall|i: int| 0 <= i < self.dates.len() implies (
                #[trigger] self.dates[i]).list.wf() by {
                    if i != k {
                        assert(self.dates[i] == before[i]);
                    }
                }
            }
        } else {
            let mut list = BurstList::new();
            list.insert(key, paths);
            self.dates.push(BurstStitch { date, list });
            proof {
                assert(self.dates@.drop_last() =~= before);
                assert forall|i: int| 0 <= i < self.dates.len() implies (
                #[trigger] self.dates[i]).list.wf() by {
                    if i < before.len() {
                        assert(self.dates[i] == before[i]);
                    }
                }
            }
        }
    }
}

/// Splits the selected features into per-acquisition burst lists, keyed by
/// acquisition date (`YYYY-mm-dd` derived from `start_time`), given the granule
/// of each.
///
/// Each entry is written to `burst_stitch/{date}.json`. Paths follow the same
/// `/archive`-relative convention as `build_burst_list`.
pub fn build_burst_stitch(features: &Vec<Properties>, scenes: &Vec<String>, at: &Vec<usize>) -> (r:
    BurstStitchMap)
    requires
        all_dated(features@),
        scenes.len() == at.len(),
        forall|i: int| 0 <= i < at.len() ==> #[trigger] at[i] < features.len(),
    ensures
        r.wf(),
        r@ == stitch_of(features@, text::texts(scenes@), positions(at@)),
{
    let mut stitch = BurstStitchMap { dates: Vec::new() };
    let ghost all = positions(at@);
    let ghost names = text::texts(scenes@);
    for i in 0..at.len()
        invariant
            all == positions(at@),
            names == text::texts(scenes@),
            all_dated(features@),
            scenes.len() == at.len(),
            forall|i: int| 0 <= i < at.len() ==> #[trigger] at[i] < features.len(),
            stitch.wf(),
            stitch@ == stitch_of(features@, names.take(i as int), all.take(i as int)),
    {
        let n: usize = at[i];
        let date = match features[n].read_date() {
            Some(date) => date,
            None => {
                assert(features[n as int].dated());
                String::new()
            },
        };
        assert(date@ == features[n as int].date());
        let (key, paths) = entry_for(&features[n], scenes[i].as_str());
        proof {
            assert(all.take(i + 1).drop_last() =~= all.take(i as int));
            assert(all.take(i + 1).last() == n as int);
            assert(names.take(i + 1).drop_last() =~= names.take(i as int));
            assert(names.take(i + 1).last() == scenes[i as int]@);
        }
        stitch.insert(date, key, paths);
    }
    assert(all.take(at.len() as int) =~= all);
    assert(names.take(at.len() as int) =~= names);
    stitch
}

/// The selected features of one date, and their granules.
pub open spec fn on_date(
    features: Seq<Properties>,
    scenes: Seq<Seq<char>>,
    at: Seq<int>,
    date: Seq<char>,
) -> (Seq<Seq<char>>, Seq<int>)
    decreases at.len(),
{
    if at.len() == 0 {
        (Seq::empty(), Seq::empty())
    } else {
        let before = on_date(features, scenes.drop_last(), at.drop_last(), date);
        if features[at.last()].date() == date {
            (before.0.push(scenes.last()), before.1.push(at.last()))
        } else {
            before
        }
    }
}

/// The list of each date is the burst list of the features of that date, and
/// there is one for exactly the dates that features have.
pub proof fn stitch_splits_by_date(
    features: Seq<Properties>,
    scenes: Seq<Seq<char>>,
    at: Seq<int>,
    date: Seq<char>,
)
    requires
        scenes.len() == at.len(),
    ensures
        ({
            let stitch = stitch_of(features, scenes, at);
            let (names, of_date) = on_date(features, scenes, at, date);
            &&& stitch.dom().contains(date) <==> of_date.len() > 0
            &&& names.len() == of_date.len()
            &&& stitch.dom().contains(date) ==> stitch[date] == list_of(features, names, of_date)
        }),
    decreases at.len(),
{
    if at.len() > 0 {
        stitch_splits_by_date(features, scenes.drop_last(), at.drop_last(), date);
        let (names, of_date) = on_date(features, scenes, at, date);
        let before = on_date(features, scenes.drop_last(), at.drop_last(), date);
        if features[at.last()].date() == date {
            assert(names.drop_last() =~= before.0);
            assert(of_date.drop_last() =~= before.1);
            if before.1.len() == 0 {
                assert(list_of(features, before.0, before.1)
                    =~= Map::<BurstKeyModel, BurstPathsModel>::empty());
            }
        }
    }
}

/// The burst list holds every selected burst, with the files that lie where its
/// key says.
pub proof fn list_holds_every_burst(
    features: Seq<Properties>,
    scenes: Seq<Seq<char>>,
    at: Seq<int>,
    i: int,
)
    requires
        scenes.len() == at.len(),
        0 <= i < at.len(),
    ensures
        ({
            let key = burst_key(features[at[i]], scenes[i]);
            let list = list_of(features, scenes, at);
            list.dom().contains(key) && list[key] == burst_files(key)
        }),
    decreases at.len(),
{
    if i < at.len() - 1 {
        list_holds_every_burst(features, scenes.drop_last(), at.drop_last(), i);
    }
}

// ---------------------------------------------------------------------------
// The search
// ---------------------------------------------------------------------------

/// The features that a search selects.
#[derive(Debug)]
pub struct Selection {
    /// The orbit path number chosen.
    pub path: u32,
    /// Positions of the selected features. The area that the elevation model
    /// has to span is the bounding box of their footprints.
    pub at: Vec<usize>,
}

/// The burst lists of a search.
#[derive(Debug)]
pub struct AsfSearchResult {
    /// Burst list ready to be serialised to `burst_list.json`.
    /// Structure: granule → subswath → polarization → burst_index → paths.
    pub burst_list: BurstList,
    /// Per-acquisition burst lists ready to be written to `burst_stitch/`.
    /// Structure: date (YYYY-mm-dd) → burst list.
    pub burst_stitch: BurstStitchMap,
}

/// Selects the features of the path to take, where `groups` are the features
/// per path and `coverage` says how much of the area each path covers.
///
/// # Errors
/// - `FlightPathError::InsufficientMaterial`: no images found.
/// - `FlightPathError::InvalidPath`: an explicit path was requested but has
///   insufficient coverage.
pub fn select_features(
    features: &Vec<Properties>,
    groups: &Vec<PathAccum>,
    coverage: &Vec<Float64>,
    explicit: Option<u32>,
) -> (r: Result<Selection, FlightPathError>)
    requires
        all_dated(features@),
        models(groups@) == grouped(features@),
        coverage.len() == groups.len(),
    ensures
        match r {
            Ok(selection) => exists|k: int|
                0 <= k < groups.len() && selection.path as int == (#[trigger] groups[k]).path as int
                    % 0x1_0000_0000 && positions(selection.at@) == with_adjacent(
                    features@,
                    path_model(features@, groups[k].path),
                ) && takes(groups@, coverage@, explicit, k),
            Err(FlightPathError::InsufficientMaterial) => features.len() == 0,
            Err(FlightPathError::InvalidPath) => features.len() > 0 && (match explicit {
                Some(path) => forall|i: int|
                    0 <= i < groups.len() && (#[trigger] groups[i]).path == path
                        ==> covers_too_little(coverage[i]),
                None => false,
            }),
        },
        r is Ok ==> positions((r->Ok_0).at@).no_duplicates(),
        r is Ok ==> forall|i: int| 0 <= i < (r->Ok_0).at.len() ==> #[trigger] (r->Ok_0).at[i] < features.len(),
{
    if features.len() == 0 {
        return Err(FlightPathError::InsufficientMaterial);
    }
    proof {
        let found = grouped(features@);
        assert(models(groups@).len() == groups.len());
        assert(found.len() == paths_of(features@).len());
        lemma_paths_unique(features@);
        assert(paths_of(features@).len() > 0) by {
            let before = paths_of(features@.drop_last());
            assert(before.contains(features@.last().path_number) ==> before.len() > 0);
        }
        assert forall|k: int| 0 <= k < groups.len() implies (#[trigger] groups[k])@ == path_model(
            features@,
            paths_of(features@)[k],
        ) && groups[k].path == paths_of(features@)[k] by {
            assert(models(groups@)[k] == found[k]);
            assert(models(groups@)[k] == groups[k]@);
            lemma_path_of_model(features@, paths_of(features@)[k]);
        }
    }
    proof {
        assert forall|i: int, j: int| 0 <= i < j < groups.len() implies (#[trigger] groups[i]).path != (
        #[trigger] groups[j]).path by {
            assert(paths_of(features@)[i] != paths_of(features@)[j]);
        }
    }
    match choose_path(groups, coverage, explicit) {
        Err(error) => Err(error),
        Ok(k) => {
            let group = &groups[k];
            proof {
                path_counts_each_once(features@, group.path);
                assert forall|i: int|
                    0 <= i < group.features.len() implies #[trigger] group.features[i]
                    < features.len() by {
                    assert(group@.features[i] == group.features[i] as int);
                }
            }
            let at = apply_adjacent_burst_fallback(group, features);
            let path: u32 = (group.path as u64 % 0x1_0000_0000u64) as u32;
            Ok(Selection { path, at })
        },
    }
}

/// The granule that a feature belongs to: the first segment of its URL's path.
pub open spec fn scene_of(feature: Properties) -> Option<Seq<char>> {
    match urls::segments_of(feature.tiff_url@) {
        Some(segments) => Some(segments[0]),
        None => None,
    }
}

/// The granules of selected features; none where a URL names no granule.
pub fn scenes(features: &Vec<Properties>, at: &Vec<usize>) -> (r: Option<Vec<String>>)
    requires
        forall|i: int| 0 <= i < at.len() ==> #[trigger] at[i] < features.len(),
    ensures
        match r {
            Some(names) => names.len() == at.len() && forall|i: int|
                0 <= i < at.len() ==> scene_of(features[#[trigger] at[i] as int]) == Some(names[i]@),
            None => exists|i: int|
                0 <= i < at.len() && scene_of(features[#[trigger] at[i] as int]) is None,
        },
{
    let mut names: Vec<String> = Vec::new();
    for n in 0..at.len()
        invariant
            forall|i: int| 0 <= i < at.len() ==> #[trigger] at[i] < features.len(),
            names.len() == n,
            forall|i: int|
                0 <= i < n ==> scene_of(features[#[trigger] at[i] as int]) == Some(names[i]@),
    {
        match path_segments(features[at[n]].tiff_url.as_str()) {
            None => {
                assert(scene_of(features[at[n as int] as int]) is None);
                return None;
            },
            Some(segments) => {
                let name = segments[0].clone();
                assert(text::texts(segments@)[0] == name@);
                names.push(name);
            },
        }
    }
    Some(names)
}

/// Builds both burst lists of selected features. There are none where a
/// feature's URL names no granule.
pub fn burst_lists(features: &Vec<Properties>, at: &Vec<usize>) -> (r: Option<AsfSearchResult>)
    requires
        all_dated(features@),
        forall|i: int| 0 <= i < at.len() ==> #[trigger] at[i] < features.len(),
    ensures
        match r {
            Some(found) => {
                let names = Seq::new(
                    at.len() as nat,
                    |i: int| scene_of(features[at[i] as int])->0,
                );
                &&& forall|i: int|
                    0 <= i < at.len() ==> scene_of(features[#[trigger] at[i] as int]) is Some
                &&& found.burst_list.wf()
                &&& found.burst_list@ == list_of(features@, names, positions(at@))
                &&& found.burst_stitch.wf()
                &&& found.burst_stitch@ == stitch_of(features@, names, positions(at@))
            },
            None => exists|i: int|
                0 <= i < at.len() && scene_of(features[#[trigger] at[i] as int]) is None,
        },
{
    match scenes(features, at) {
        None => None,
        Some(names) => {
            assert(text::texts(names@) =~= Seq::new(
                at.len() as nat,
                |i: int| scene_of(features[at[i] as int])->0,
            ));
            Some(
                AsfSearchResult {
                    burst_list: build_burst_list(features, &names, at),
                    burst_stitch: build_burst_stitch(features, &names, at),
                },
            )
        },
    }
}

// ---------------------------------------------------------------------------
// ASF HTTP query
// ---------------------------------------------------------------------------

/// The dataset that a request searches.
pub open spec fn dataset_of(req: JobRequest) -> Seq<char> {
    match req.sensor {
        Some(sensor) => sensor.dataset(),
        None => Sensor::S1Burst.dataset(),
    }
}

/// The corners of a request as the search service takes them: north-west,
/// north-east, south-east, south-west and back.
pub open spec fn polygon_text(req: JobRequest) -> Seq<char> {
    let (north, south) = (req.north.text@, req.south.text@);
    let (east, west) = (req.east.text@, req.west.text@);
    "intersectsWith=polygon%28%28"@ + west + "+"@ + north + ","@ + east + "+"@ + north + ","@ + east
        + "+"@ + south + ","@ + west + "+"@ + south + ","@ + west + "+"@ + north + "%29%29"@
}

/// The URL of the search for a request, given the texts of its dates.
pub open spec fn search_url(
    req: JobRequest,
    endpoint: Seq<char>,
    start: Seq<char>,
    end: Seq<char>,
) -> Seq<char> {
    endpoint + "?dataset="@ + dataset_of(req) + "&polarization=VV&"@ + polygon_text(req)
        + "&start="@ + start + "&end="@ + end + "&output=geojson"@
}

fn push_corner(out: &mut String, separator: &str, lon: &str, lat: &str)
    ensures
        final(out)@ == old(out)@ + separator@ + lon@ + "+"@ + lat@,
{
    out.append(separator);
    out.append(lon);
    out.append("+");
    out.append(lat);
}

/// The URL of the search for a request, given the texts of its dates.
pub fn write_search_url(req: &JobRequest, endpoint: &str, start: &str, end: &str) -> (r: String)
    ensures
        r@ == search_url(*req, endpoint@, start@, end@),
{
    let dataset = match req.sensor {
        Some(sensor) => sensor.asf_dataset(),
        None => Sensor::default().asf_dataset(),
    };
    let (north, south) = (req.north.text.as_str(), req.south.text.as_str());
    let (east, west) = (req.east.text.as_str(), req.west.text.as_str());
    let mut bounds = String::new();
    push_corner(&mut bounds, "intersectsWith=polygon%28%28", west, north);
    push_corner(&mut bounds, ",", east, north);
    push_corner(&mut bounds, ",", east, south);
    push_corner(&mut bounds, ",", west, south);
    push_corner(&mut bounds, ",", west, north);
    bounds.append("%29%29");
    assert(bounds@ =~= polygon_text(*req));
    let mut url = endpoint.to_owned();
    url.append("?dataset=");
    url.append(dataset);
    url.append("&polarization=VV&");
    url.append(bounds.as_str());
    url.append("&start=");
    url.append(start);
    url.append("&end=");
    url.append(end);
    url.append("&output=geojson");
    url
}

/// The URL of the search for a request. There is none where a date lies outside
/// the calendar.
pub fn query_asf(req: &JobRequest, endpoint: &str) -> (r: Option<String>)
    ensures
        match (time::date_name(req.start.days), time::date_name(req.end.days)) {
            (Some(start), Some(end)) => text::opt_text(r) == Some(
                search_url(*req, endpoint@, start, end),
            ),
            _ => r is None,
        },
{
    match (date_text(&req.start), date_text(&req.end)) {
        (Some(start), Some(end)) => Some(
            write_search_url(req, endpoint, start.as_str(), end.as_str()),
        ),
        _ => None,
    }
}

// ---------------------------------------------------------------------------
// Laws
// ---------------------------------------------------------------------------

/// The adjacent burst is a neighbour: the one below, and the one above only where
/// there is none below.
pub proof fn adjacent_bursts_are_neighbours(index: i64)
    requires
        index >= 0,
    ensures
        adjacent_index(index) >= 0,
        index > 0 ==> adjacent_index(index) + 1 == index,
        index == 0 ==> adjacent_index(index) == index + 1,
{
}

proof fn lemma_showing_all(
    features: Seq<Properties>,
    path: usize,
    index: int,
    subswath: Seq<char>,
    n: int,
)
    requires
        0 <= n < features.len(),
        shows(features[n], path, index, subswath),
    ensures
        showing(features, path, index, subswath).contains(n),
    decreases features.len(),
{
    let rest = features.drop_last();
    let before = showing(rest, path, index, subswath);
    let found = showing(features, path, index, subswath);
    if n < features.len() - 1 {
        assert(rest[n] == features[n]);
        lemma_showing_all(rest, path, index, subswath, n);
        let k = choose|k: int| 0 <= k < before.len() && before[k] == n;
        assert(found[k] == n);
    } else {
        assert(found.last() == n);
    }
}

/// Where every acquisition shows a single burst, no feature of the adjacent burst of
/// the same path and subswath is left out: each of them is selected in the end. Two
/// acquired bursts are the same exactly where both the index and the subswath are.
pub proof fn fallback_finds_every_neighbour(
    features: Seq<Properties>,
    selected: PathModel,
    n: int,
)
    requires
        selected.features.len() > 0,
        0 <= n < features.len(),
        forall|i: int, j: int|
            #![trigger features[selected.features[i]], features[selected.features[j]]]
            0 <= i < selected.features.len() && 0 <= j < selected.features.len()
                && features[selected.features[i]].date() == features[selected.features[j]].date()
                ==> features[selected.features[i]].burst.burst_index
                == features[selected.features[j]].burst.burst_index
                && features[selected.features[i]].burst.subswath@
                == features[selected.features[j]].burst.subswath@,
        features[n].path_number == selected.path,
        features[n].burst.subswath@ == features[selected.features[0]].burst.subswath@,
        features[n].burst.burst_index == adjacent_index(
            features[selected.features[0]].burst.burst_index,
        ),
    ensures
        with_adjacent(features, selected).contains(n),
{
    let first = features[selected.features[0]];
    let index = adjacent_index(first.burst.burst_index);
    let found = showing(features, selected.path, index, first.burst.subswath@);
    let more = missing_from(found, selected.features);
    let all = with_adjacent(features, selected);
    assert(one_burst_per_date(features, selected.features));
    assert(shows(features[n], selected.path, index, first.burst.subswath@));
    lemma_showing(features, selected.path, index, first.burst.subswath@);
    lemma_showing_all(features, selected.path, index, first.burst.subswath@, n);
    lemma_missing_from(found, selected.features);
    assert(all == selected.features + more);
    if selected.features.contains(n) {
        let k = choose|k: int| 0 <= k < selected.features.len() && selected.features[k] == n;
        assert(all[k] == n);
    } else {
        assert(more.contains(n));
        let k = choose|k: int| 0 <= k < more.len() && more[k] == n;
        assert(all[selected.features.len() + k] == n);
    }
}

/// The files of a burst lie in the archive below its granule, its subswath and its
/// polarization, which is VV, under the number of the burst: the image as `tiff`, the
/// metadata as `xml`.
pub proof fn bursts_lie_in_the_archive(scene: Seq<char>, subswath: Seq<char>, index: int)
    requires
        scene.len() > 0 && scene[0] != '/' && scene.last() != '/',
        subswath.len() > 0 && subswath[0] != '/' && subswath.last() != '/',
    ensures
        ({
            let files = burst_files(key_of(scene, subswath, index));
            let base = "/archive/"@ + scene + "/"@ + subswath + "/VV/"@ + number::decimal(index);
            files.data == base + ".tiff"@ && files.metadata == base + ".xml"@
        }),
{
    reveal_strlit("/");
    reveal_strlit("VV");
    reveal_strlit("/VV/");
    reveal_strlit("/archive");
    reveal_strlit("/archive/");
    let key = key_of(scene, subswath, index);
    let name = number::decimal(index);
    number::decimal_reads_back(index);
    assert(name.len() > 0 && name[0] != '/') by {
        lemma_decimal_is_a_name(index);
    }
    let granule = paths::joined_path("/archive"@, scene);
    assert(granule =~= "/archive/"@ + scene);
    assert(granule.last() == scene.last());
    let swath = paths::joined_path(granule, subswath);
    assert(swath == granule + "/"@ + subswath);
    assert(swath.last() == subswath.last());
    let polarization = paths::joined_path(swath, "VV"@);
    assert(polarization == swath + "/"@ + "VV"@);
    assert(polarization.last() == 'V');
    assert(archive_base(key) =~= "/archive/"@ + scene + "/"@ + subswath + "/VV/"@ + name);
}

proof fn lemma_decimal_is_a_name(n: int)
    ensures
        number::decimal(n).len() > 0,
        number::decimal(n)[0] != '/',
{
    if n >= 0 {
        lemma_digits_are_a_name(n as nat);
    }
}

proof fn lemma_digits_are_a_name(n: nat)
    ensures
        number::decimal_nat(n).len() > 0,
        number::decimal_nat(n)[0] != '/',
    decreases n,
{
    if n >= 10 {
        lemma_digits_are_a_name(n / 10);
    }
}

/// The key of a burst tells the granule, the subswath and the number apart: two bursts
/// with one key are one.
pub proof fn burst_keys_differ(
    scene: Seq<char>,
    subswath: Seq<char>,
    index: int,
    other_scene: Seq<char>,
    other_subswath: Seq<char>,
    other: int,
)
    requires
        key_of(scene, subswath, index) == key_of(other_scene, other_subswath, other),
    ensures
        scene == other_scene,
        subswath == other_subswath,
        index == other,
{
    number::decimal_injective(index, other);
}

/// The burst list of a date holds exactly the bursts that selected features of that
/// date show, and no other list does.
pub proof fn bursts_are_listed_under_their_date(
    features: Seq<Properties>,
    scenes: Seq<Seq<char>>,
    at: Seq<int>,
    date: Seq<char>,
    key: BurstKeyModel,
)
    requires
        scenes.len() == at.len(),
    ensures
        ({
            let stitch = stitch_of(features, scenes, at);
            stitch.dom().contains(date) && stitch[date].dom().contains(key) <==> exists|i: int|
                0 <= i < at.len() && features[#[trigger] at[i]].date() == date && burst_key(
                    features[at[i]],
                    scenes[i],
                ) == key
        }),
    decreases at.len(),
{
    if at.len() > 0 {
        let top = at.len() - 1;
        let (names, rest) = (scenes.drop_last(), at.drop_last());
        let before = stitch_of(features, names, rest);
        let stitch = stitch_of(features, scenes, at);
        bursts_are_listed_under_their_date(features, names, rest, date, key);
        let mine = burst_key(features[at[top]], scenes[top]);
        if exists|i: int|
            0 <= i < at.len() && features[#[trigger] at[i]].date() == date && burst_key(
                features[at[i]],
                scenes[i],
            ) == key {
            let i = choose|i: int|
                0 <= i < at.len() && features[#[trigger] at[i]].date() == date && burst_key(
                    features[at[i]],
                    scenes[i],
                ) == key;
            if i < top {
                assert(rest[i] == at[i] && names[i] == scenes[i]);
            }
        }
        if before.dom().contains(date) && before[date].dom().contains(key) {
            let i = choose|i: int|
                0 <= i < rest.len() && features[#[trigger] rest[i]].date() == date && burst_key(
                    features[rest[i]],
                    names[i],
                ) == key;
            assert(rest[i] == at[i] && names[i] == scenes[i]);
        }
        if stitch.dom().contains(date) && stitch[date].dom().contains(key) && !(
        before.dom().contains(date) && before[date].dom().contains(key)) {
            assert(features[at[top]].date() == date && mine == key);
        }
    }
}

/// The burst list holds no other bursts than those that selected features show.
pub proof fn list_holds_selected_bursts_only(
    features: Seq<Properties>,
    scenes: Seq<Seq<char>>,
    at: Seq<int>,
    key: BurstKeyModel,
)
    requires
        scenes.len() == at.len(),
        list_of(features, scenes, at).dom().contains(key),
    ensures
        exists|i: int|
            0 <= i < at.len() && burst_key(features[#[trigger] at[i]], scenes[i]) == key,
    decreases at.len(),
{
    if at.len() > 0 {
        let top = at.len() - 1;
        let (names, rest) = (scenes.drop_last(), at.drop_last());
        if burst_key(features[at[top]], scenes[top]) != key {
            list_holds_selected_bursts_only(features, names, rest, key);
            let i = choose|i: int|
                0 <= i < rest.len() && burst_key(features[#[trigger] rest[i]], names[i]) == key;
            assert(rest[i] == at[i] && names[i] == scenes[i]);
        }
    }
}

/// A search asks for VV images of the area and the dates of the request. The area is
/// the ring through its four corners, each written as longitude and latitude, from the
/// north-west clockwise and back; the dates are the first and the last, in this order.
/// Sentinel-1 bursts are searched for where no sensor is named.
pub proof fn searches_enclose_the_area(
    req: JobRequest,
    endpoint: Seq<char>,
    start: Seq<char>,
    end: Seq<char>,
)
    ensures
        ({
            let nw = req.west.text@ + "+"@ + req.north.text@;
            let ne = req.east.text@ + "+"@ + req.north.text@;
            let se = req.east.text@ + "+"@ + req.south.text@;
            let sw = req.west.text@ + "+"@ + req.south.text@;
            let ring = nw + ","@ + ne + ","@ + se + ","@ + sw + ","@ + nw;
            let dataset = if req.sensor == Some(Sensor::Nisar) {
                "NISAR"@
            } else {
                "SLC-BURST"@
            };
            search_url(req, endpoint, start, end) == endpoint + "?dataset="@ + dataset
                + "&polarization=VV&"@ + "intersectsWith=polygon%28%28"@ + ring + "%29%29"@
                + "&start="@ + start + "&end="@ + end + "&output=geojson"@
        }),
{
    let nw = req.west.text@ + "+"@ + req.north.text@;
    let ne = req.east.text@ + "+"@ + req.north.text@;
    let se = req.east.text@ + "+"@ + req.south.text@;
    let sw = req.west.text@ + "+"@ + req.south.text@;
    let ring = nw + ","@ + ne + ","@ + se + ","@ + sw + ","@ + nw;
    let head = endpoint + "?dataset="@ + dataset_of(req) + "&polarization=VV&"@;
    let area = "intersectsWith=polygon%28%28"@ + ring + "%29%29"@;
    assert(polygon_text(req) =~= area);
    assert(head + area =~= head + "intersectsWith=polygon%28%28"@ + ring + "%29%29"@);
}

} // verus!
