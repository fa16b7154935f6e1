//! Processing stages: the steps that the ISCE2, MintPy and MiaplPy containers
//! run one after the other, their names and the resources they need.
use vstd::prelude::*;

use crate::text::text_eq;

verus! {

/// How much of the machine a processing step needs.
#[derive(Debug, Clone, Copy, PartialEq, Eq, Structural)]
pub enum ResourceTier {
    Light,
    Medium,
    Heavy,
}

/// Each variant maps to a snake_case argument passed to the ISCE2 container
/// entrypoint. The order reflects the topsStack execution sequence.
#[derive(Debug, Clone, Copy, PartialEq, Eq, Structural)]
pub enum IsceStage {
    UnpackTopoReference,
    UnpackSecondarySlc,
    AverageBaseline,
    ExtractBurstOverlaps,
    OverlapGeoToRadar,
    OverlapResample,
    PairsMisreg,
    TimeseriesMisreg,
    FullBurstGeoToRadar,
    FullBurstResample,
    ExtractStackValidRegion,
    MergeReferenceSecondarySlc,
    GenerateBurstIgram,
    MergeBurstIgram,
    FilterCoherence,
    PhaseUnwrap,
}

impl IsceStage {
    /// The name stored in the `job_stage` column and passed to the container.
    pub open spec fn name(self) -> Seq<char> {
        match self {
            Self::UnpackTopoReference => "unpack_topo_reference"@,
            Self::UnpackSecondarySlc => "unpack_secondary_slc"@,
            Self::AverageBaseline => "average_baseline"@,
            Self::ExtractBurstOverlaps => "extract_burst_overlaps"@,
            Self::OverlapGeoToRadar => "overlap_geo_to_radar"@,
            Self::OverlapResample => "overlap_resample"@,
            Self::PairsMisreg => "pairs_misreg"@,
            Self::TimeseriesMisreg => "timeseries_misreg"@,
            Self::FullBurstGeoToRadar => "full_burst_geo_to_radar"@,
            Self::FullBurstResample => "full_burst_resample"@,
            Self::ExtractStackValidRegion => "extract_stack_valid_region"@,
            Self::MergeReferenceSecondarySlc => "merge_reference_secondary_slc"@,
            Self::GenerateBurstIgram => "generate_burst_igram"@,
            Self::MergeBurstIgram => "merge_burst_igram"@,
            Self::FilterCoherence => "filter_coherence"@,
            Self::PhaseUnwrap => "phase_unwrap"@,
        }
    }

    /// The place of the stage in the sequence, from 0.
    pub open spec fn index(self) -> int {
        match self {
            Self::UnpackTopoReference => 0,
            Self::UnpackSecondarySlc => 1,
            Self::AverageBaseline => 2,
            Self::ExtractBurstOverlaps => 3,
            Self::OverlapGeoToRadar => 4,
            Self::OverlapResample => 5,
            Self::PairsMisreg => 6,
            Self::TimeseriesMisreg => 7,
            Self::FullBurstGeoToRadar => 8,
            Self::FullBurstResample => 9,
            Self::ExtractStackValidRegion => 10,
            Self::MergeReferenceSecondarySlc => 11,
            Self::GenerateBurstIgram => 12,
            Self::MergeBurstIgram => 13,
            Self::FilterCoherence => 14,
            Self::PhaseUnwrap => 15,
        }
    }

    /// The resources that the stage needs.
    pub open spec fn tier(self) -> ResourceTier {
        match self {
            Self::UnpackTopoReference
            | Self::UnpackSecondarySlc
            | Self::ExtractBurstOverlaps
            | Self::ExtractStackValidRegion
            | Self::MergeReferenceSecondarySlc
            | Self::MergeBurstIgram => ResourceTier::Light,
            Self::PhaseUnwrap => ResourceTier::Heavy,
            _ => ResourceTier::Medium,
        }
    }

    /// Whether `later` is the stage right behind this one.
    pub open spec fn precedes(self, later: IsceStage) -> bool {
        later.index() == self.index() + 1
    }

    /// The stage that the sequence starts with.
    pub fn first() -> (r: Self)
        ensures
            r.index() == 0,
    {
        Self::UnpackTopoReference
    }

    /// The name of the stage.
    pub fn as_str(&self) -> (r: &'static str)
        ensures
            r@ == self.name(),
    {
        match self {
            Self::UnpackTopoReference => "unpack_topo_reference",
            Self::UnpackSecondarySlc => "unpack_secondary_slc",
            Self::AverageBaseline => "average_baseline",
            Self::ExtractBurstOverlaps => "extract_burst_overlaps",
            Self::OverlapGeoToRadar => "overlap_geo_to_radar",
            Self::OverlapResample => "overlap_resample",
            Self::PairsMisreg => "pairs_misreg",
            Self::TimeseriesMisreg => "timeseries_misreg",
            Self::FullBurstGeoToRadar => "full_burst_geo_to_radar",
            Self::FullBurstResample => "full_burst_resample",
            Self::ExtractStackValidRegion => "extract_stack_valid_region",
            Self::MergeReferenceSecondarySlc => "merge_reference_secondary_slc",
            Self::GenerateBurstIgram => "generate_burst_igram",
            Self::MergeBurstIgram => "merge_burst_igram",
            Self::FilterCoherence => "filter_coherence",
            Self::PhaseUnwrap => "phase_unwrap",
        }
    }

    /// The stage right behind this one; none behind the last.
    pub fn next(&self) -> (r: Option<Self>)
        ensures
            match r {
                Some(later) => self.precedes(later),
                None => self.index() == 15,
            },
    {
        match self {
            Self::UnpackTopoReference => Some(Self::UnpackSecondarySlc),
            Self::UnpackSecondarySlc => Some(Self::AverageBaseline),
            Self::AverageBaseline => Some(Self::ExtractBurstOverlaps),
            Self::ExtractBurstOverlaps => Some(Self::OverlapGeoToRadar),
            Self::OverlapGeoToRadar => Some(Self::OverlapResample),
            Self::OverlapResample => Some(Self::PairsMisreg),
            Self::PairsMisreg => Some(Self::TimeseriesMisreg),
            Self::TimeseriesMisreg => Some(Self::FullBurstGeoToRadar),
            Self::FullBurstGeoToRadar => Some(Self::FullBurstResample),
            Self::FullBurstResample => Some(Self::ExtractStackValidRegion),
            Self::ExtractStackValidRegion => Some(Self::MergeReferenceSecondarySlc),
            Self::MergeReferenceSecondarySlc => Some(Self::GenerateBurstIgram),
            Self::GenerateBurstIgram => Some(Self::MergeBurstIgram),
            Self::MergeBurstIgram => Some(Self::FilterCoherence),
            Self::FilterCoherence => Some(Self::PhaseUnwrap),
            Self::PhaseUnwrap => None,
        }
    }

    /// The stage that a text names.
    pub open spec fn named(s: Seq<char>) -> Option<IsceStage> {
        if exists|stage: IsceStage| s == #[trigger] stage.name() {
            Some(choose|stage: IsceStage| s == #[trigger] stage.name())
        } else {
            None
        }
    }

    /// The stage of a given name; none for any other text.
    pub fn from_str(s: &str) -> (r: Option<Self>)
        ensures
            r == Self::named(s@),
    {
        let r = Self::lookup(s);
        proof {
            if r is Some {
                Self::named_is_unique(r->0);
            }
        }
        r
    }

    /// The stage whose name reads back is the stage itself.
    pub proof fn named_is_unique(stage: IsceStage)
        ensures
            Self::named(stage.name()) == Some(stage),
    {
        Self::names_differ(Self::named(stage.name())->0, stage);
    }

    fn lookup(s: &str) -> (r: Option<Self>)
        ensures
            match r {
                Some(stage) => s@ == stage.name(),
                None => forall|stage: IsceStage| s@ != #[trigger] stage.name(),
            },
    {
        if text_eq(s, "unpack_topo_reference") {
            Some(Self::UnpackTopoReference)
        } else if text_eq(s, "unpack_secondary_slc") {
            Some(Self::UnpackSecondarySlc)
        } else if text_eq(s, "average_baseline") {
            Some(Self::AverageBaseline)
        } else if text_eq(s, "extract_burst_overlaps") {
            Some(Self::ExtractBurstOverlaps)
        } else if text_eq(s, "overlap_geo_to_radar") {
            Some(Self::OverlapGeoToRadar)
        } else if text_eq(s, "overlap_resample") {
            Some(Self::OverlapResample)
        } else if text_eq(s, "pairs_misreg") {
            Some(Self::PairsMisreg)
        } else if text_eq(s, "timeseries_misreg") {
            Some(Self::TimeseriesMisreg)
        } else if text_eq(s, "full_burst_geo_to_radar") {
            Some(Self::FullBurstGeoToRadar)
        } else if text_eq(s, "full_burst_resample") {
            Some(Self::FullBurstResample)
        } else if text_eq(s, "extract_stack_valid_region") {
            Some(Self::ExtractStackValidRegion)
        } else if text_eq(s, "merge_reference_secondary_slc") {
            Some(Self::MergeReferenceSecondarySlc)
        } else if text_eq(s, "generate_burst_igram") {
            Some(Self::GenerateBurstIgram)
        } else if text_eq(s, "merge_burst_igram") {
            Some(Self::MergeBurstIgram)
        } else if text_eq(s, "filter_coherence") {
            Some(Self::FilterCoherence)
        } else if text_eq(s, "phase_unwrap") {
            Some(Self::PhaseUnwrap)
        } else {
            None
        }
    }

    /// The resources that the stage needs.
    pub fn resource_tier(&self) -> (r: ResourceTier)
        ensures
            r == self.tier(),
    {
        match self {
            Self::UnpackTopoReference
            | Self::UnpackSecondarySlc
            | Self::ExtractBurstOverlaps
            | Self::ExtractStackValidRegion
            | Self::MergeReferenceSecondarySlc
            | Self::MergeBurstIgram => ResourceTier::Light,
            Self::AverageBaseline
            | Self::OverlapGeoToRadar
            | Self::OverlapResample
            | Self::PairsMisreg
            | Self::TimeseriesMisreg
            | Self::FullBurstGeoToRadar
            | Self::FullBurstResample
            | Self::GenerateBurstIgram
            | Self::FilterCoherence => ResourceTier::Medium,
            Self::PhaseUnwrap => ResourceTier::Heavy,
        }
    }

    /// Different stages have different names.
    pub proof fn names_differ(a: IsceStage, b: IsceStage)
        requires
            a.name() == b.name(),
        ensures
            a == b,
    {
        reveal_strlit("unpack_topo_reference");
        reveal_strlit("unpack_secondary_slc");
        reveal_strlit("average_baseline");
        reveal_strlit("extract_burst_overlaps");
        reveal_strlit("overlap_geo_to_radar");
        reveal_strlit("overlap_resample");
        reveal_strlit("pairs_misreg");
        reveal_strlit("timeseries_misreg");
        reveal_strlit("full_burst_geo_to_radar");
        reveal_strlit("full_burst_resample");
        reveal_strlit("extract_stack_valid_region");
        reveal_strlit("merge_reference_secondary_slc");
        reveal_strlit("generate_burst_igram");
        reveal_strlit("merge_burst_igram");
        reveal_strlit("filter_coherence");
        reveal_strlit("phase_unwrap");
        assert("unpack_topo_reference"@.len() == 21);
        assert("unpack_secondary_slc"@.len() == 20);
        assert("average_baseline"@.len() == 16);
        assert("extract_burst_overlaps"@.len() == 22);
        assert("overlap_geo_to_radar"@.len() == 20);
        assert("overlap_resample"@.len() == 16);
        assert("pairs_misreg"@.len() == 12);
        assert("timeseries_misreg"@.len() == 17);
        assert("full_burst_geo_to_radar"@.len() == 23);
        assert("full_burst_resample"@.len() == 19);
        assert("extract_stack_valid_region"@.len() == 26);
        assert("merge_reference_secondary_slc"@.len() == 29);
        assert("generate_burst_igram"@.len() == 20);
        assert("merge_burst_igram"@.len() == 17);
        assert("filter_coherence"@.len() == 16);
        assert("phase_unwrap"@.len() == 12);
        assert(Self::UnpackSecondarySlc.name()[0] != Self::OverlapGeoToRadar.name()[0]);
        assert(Self::UnpackSecondarySlc.name()[0] != Self::GenerateBurstIgram.name()[0]);
        assert(Self::OverlapGeoToRadar.name()[0] != Self::GenerateBurstIgram.name()[0]);
        assert(Self::AverageBaseline.name()[0] != Self::OverlapResample.name()[0]);
        assert(Self::AverageBaseline.name()[0] != Self::FilterCoherence.name()[0]);
        assert(Self::OverlapResample.name()[0] != Self::FilterCoherence.name()[0]);
        assert(Self::PairsMisreg.name()[1] != Self::PhaseUnwrap.name()[1]);
        assert(Self::TimeseriesMisreg.name()[0] != Self::MergeBurstIgram.name()[0]);
    }

    /// A run of the container: from the first stage, each stage followed by the
    /// next one, up to a stage with none behind it.
    pub open spec fn is_run(run: Seq<IsceStage>) -> bool {
        &&& run.len() > 0
        &&& run[0].index() == 0
        &&& forall|i: int| 0 <= i < run.len() - 1 ==> #[trigger] run[i].precedes(run[i + 1])
        &&& forall|later: IsceStage| !run.last().precedes(later)
    }

    proof fn lemma_run_prefix(run: Seq<IsceStage>, i: int)
        requires
            Self::is_run(run),
            0 <= i < run.len(),
        ensures
            run[i].index() == i,
        decreases i,
    {
        if i > 0 {
            Self::lemma_run_prefix(run, i - 1);
            assert(run[i - 1].precedes(run[i]));
        }
    }

    /// A run passes through every stage exactly once, in order.
    pub proof fn run_visits_every_stage(run: Seq<IsceStage>, stage: IsceStage)
        requires
            Self::is_run(run),
        ensures
            run.len() == 16,
            run[stage.index()] == stage,
    {
        Self::lemma_run_prefix(run, run.len() - 1);
        let last = run.last();
        if last.index() < 15 {
            assert(!last.precedes(Self::UnpackSecondarySlc));
            assert(!last.precedes(Self::AverageBaseline));
            assert(!last.precedes(Self::ExtractBurstOverlaps));
            assert(!last.precedes(Self::OverlapGeoToRadar));
            assert(!last.precedes(Self::OverlapResample));
            assert(!last.precedes(Self::PairsMisreg));
            assert(!last.precedes(Self::TimeseriesMisreg));
            assert(!last.precedes(Self::FullBurstGeoToRadar));
            assert(!last.precedes(Self::FullBurstResample));
            assert(!last.precedes(Self::ExtractStackValidRegion));
            assert(!last.precedes(Self::MergeReferenceSecondarySlc));
            assert(!last.precedes(Self::GenerateBurstIgram));
            assert(!last.precedes(Self::MergeBurstIgram));
            assert(!last.precedes(Self::FilterCoherence));
            assert(!last.precedes(Self::PhaseUnwrap));
        }
        Self::lemma_run_prefix(run, stage.index());
    }

    /// Which stage follows which.
    pub proof fn stages_follow_one_another(a: IsceStage, b: IsceStage)
        ensures
            a.precedes(b) <==> match a {
                Self::UnpackTopoReference => b == Self::UnpackSecondarySlc,
                Self::UnpackSecondarySlc => b == Self::AverageBaseline,
                Self::AverageBaseline => b == Self::ExtractBurstOverlaps,
                Self::ExtractBurstOverlaps => b == Self::OverlapGeoToRadar,
                Self::OverlapGeoToRadar => b == Self::OverlapResample,
                Self::OverlapResample => b == Self::PairsMisreg,
                Self::PairsMisreg => b == Self::TimeseriesMisreg,
                Self::TimeseriesMisreg => b == Self::FullBurstGeoToRadar,
                Self::FullBurstGeoToRadar => b == Self::FullBurstResample,
                Self::FullBurstResample => b == Self::ExtractStackValidRegion,
                Self::ExtractStackValidRegion => b == Self::MergeReferenceSecondarySlc,
                Self::MergeReferenceSecondarySlc => b == Self::GenerateBurstIgram,
                Self::GenerateBurstIgram => b == Self::MergeBurstIgram,
                Self::MergeBurstIgram => b == Self::FilterCoherence,
                Self::FilterCoherence => b == Self::PhaseUnwrap,
                Self::PhaseUnwrap => false,
            },
    {
    }

    /// There is a run: it goes through all the stages, one after another.
    pub proof fn all_stages_make_a_run()
        ensures
            Self::is_run(
                seq![
                    Self::UnpackTopoReference,
                    Self::UnpackSecondarySlc,
                    Self::AverageBaseline,
                    Self::ExtractBurstOverlaps,
                    Self::OverlapGeoToRadar,
                    Self::OverlapResample,
                    Self::PairsMisreg,
                    Self::TimeseriesMisreg,
                    Self::FullBurstGeoToRadar,
                    Self::FullBurstResample,
                    Self::ExtractStackValidRegion,
                    Self::MergeReferenceSecondarySlc,
                    Self::GenerateBurstIgram,
                    Self::MergeBurstIgram,
                    Self::FilterCoherence,
                    Self::PhaseUnwrap,
                ],
            ),
    {
        let run = seq![
            Self::UnpackTopoReference,
            Self::UnpackSecondarySlc,
            Self::AverageBaseline,
            Self::ExtractBurstOverlaps,
            Self::OverlapGeoToRadar,
            Self::OverlapResample,
            Self::PairsMisreg,
            Self::TimeseriesMisreg,
            Self::FullBurstGeoToRadar,
            Self::FullBurstResample,
            Self::ExtractStackValidRegion,
            Self::MergeReferenceSecondarySlc,
            Self::GenerateBurstIgram,
            Self::MergeBurstIgram,
            Self::FilterCoherence,
            Self::PhaseUnwrap,
        ];
        assert forall|i: int| 0 <= i < run.len() - 1 implies #[trigger] run[i].precedes(
            run[i + 1],
        ) by {}
        assert forall|later: IsceStage| !run.last().precedes(later) by {
            Self::stages_follow_one_another(run.last(), later);
        }
    }

    /// The stages of a run, by their names: the order in which ISCE2 needs them.
    pub proof fn run_is_in_order(run: Seq<IsceStage>)
        requires
            Self::is_run(run),
        ensures
            run.map_values(|stage: IsceStage| stage.name()) == seq![
                "unpack_topo_reference"@,
                "unpack_secondary_slc"@,
                "average_baseline"@,
                "extract_burst_overlaps"@,
                "overlap_geo_to_radar"@,
                "overlap_resample"@,
                "pairs_misreg"@,
                "timeseries_misreg"@,
                "full_burst_geo_to_radar"@,
                "full_burst_resample"@,
                "extract_stack_valid_region"@,
                "merge_reference_secondary_slc"@,
                "generate_burst_igram"@,
                "merge_burst_igram"@,
                "filter_coherence"@,
                "phase_unwrap"@,
            ],
    {
        Self::run_visits_every_stage(run, Self::UnpackTopoReference);
        Self::run_visits_every_stage(run, Self::UnpackSecondarySlc);
        Self::run_visits_every_stage(run, Self::AverageBaseline);
        Self::run_visits_every_stage(run, Self::ExtractBurstOverlaps);
        Self::run_visits_every_stage(run, Self::OverlapGeoToRadar);
        Self::run_visits_every_stage(run, Self::OverlapResample);
        Self::run_visits_every_stage(run, Self::PairsMisreg);
        Self::run_visits_every_stage(run, Self::TimeseriesMisreg);
        Self::run_visits_every_stage(run, Self::FullBurstGeoToRadar);
        Self::run_visits_every_stage(run, Self::FullBurstResample);
        Self::run_visits_every_stage(run, Self::ExtractStackValidRegion);
        Self::run_visits_every_stage(run, Self::MergeReferenceSecondarySlc);
        Self::run_visits_every_stage(run, Self::GenerateBurstIgram);
        Self::run_visits_every_stage(run, Self::MergeBurstIgram);
        Self::run_visits_every_stage(run, Self::FilterCoherence);
        Self::run_visits_every_stage(run, Self::PhaseUnwrap);
        assert(run[0].name() == "unpack_topo_reference"@);
        assert(run[1].name() == "unpack_secondary_slc"@);
        assert(run[2].name() == "average_baseline"@);
        assert(run[3].name() == "extract_burst_overlaps"@);
        assert(run[4].name() == "overlap_geo_to_radar"@);
        assert(run[5].name() == "overlap_resample"@);
        assert(run[6].name() == "pairs_misreg"@);
        assert(run[7].name() == "timeseries_misreg"@);
        assert(run[8].name() == "full_burst_geo_to_radar"@);
        assert(run[9].name() == "full_burst_resample"@);
        assert(run[10].name() == "extract_stack_valid_region"@);
        assert(run[11].name() == "merge_reference_secondary_slc"@);
        assert(run[12].name() == "generate_burst_igram"@);
        assert(run[13].name() == "merge_burst_igram"@);
        assert(run[14].name() == "filter_coherence"@);
        assert(run[15].name() == "phase_unwrap"@);
        let names = run.map_values(|stage: IsceStage| stage.name());
        assert(names =~= seq![
                "unpack_topo_reference"@,
                "unpack_secondary_slc"@,
                "average_baseline"@,
                "extract_burst_overlaps"@,
                "overlap_geo_to_radar"@,
                "overlap_resample"@,
                "pairs_misreg"@,
                "timeseries_misreg"@,
                "full_burst_geo_to_radar"@,
                "full_burst_resample"@,
                "extract_stack_valid_region"@,
                "merge_reference_secondary_slc"@,
                "generate_burst_igram"@,
                "merge_burst_igram"@,
                "filter_coherence"@,
                "phase_unwrap"@,
        ]);
    }

    /// The resources that the stages of a run need, in order.
    pub proof fn run_needs_resources(run: Seq<IsceStage>)
        requires
            Self::is_run(run),
        ensures
            run.map_values(|stage: IsceStage| stage.tier()) == seq![
                ResourceTier::Light,
                ResourceTier::Light,
                ResourceTier::Medium,
                ResourceTier::Light,
                ResourceTier::Medium,
                ResourceTier::Medium,
                ResourceTier::Medium,
                ResourceTier::Medium,
                ResourceTier::Medium,
                ResourceTier::Medium,
                ResourceTier::Light,
                ResourceTier::Light,
                ResourceTier::Medium,
                ResourceTier::Light,
                ResourceTier::Medium,
                ResourceTier::Heavy,
            ],
    {
        Self::run_visits_every_stage(run, Self::UnpackTopoReference);
        Self::run_visits_every_stage(run, Self::UnpackSecondarySlc);
        Self::run_visits_every_stage(run, Self::AverageBaseline);
        Self::run_visits_every_stage(run, Self::ExtractBurstOverlaps);
        Self::run_visits_every_stage(run, Self::OverlapGeoToRadar);
        Self::run_visits_every_stage(run, Self::OverlapResample);
        Self::run_visits_every_stage(run, Self::PairsMisreg);
        Self::run_visits_every_stage(run, Self::TimeseriesMisreg);
        Self::run_visits_every_stage(run, Self::FullBurstGeoToRadar);
        Self::run_visits_every_stage(run, Self::FullBurstResample);
        Self::run_visits_every_stage(run, Self::ExtractStackValidRegion);
        Self::run_visits_every_stage(run, Self::MergeReferenceSecondarySlc);
        Self::run_visits_every_stage(run, Self::GenerateBurstIgram);
        Self::run_visits_every_stage(run, Self::MergeBurstIgram);
        Self::run_visits_every_stage(run, Self::FilterCoherence);
        Self::run_visits_every_stage(run, Self::PhaseUnwrap);
        let needs = run.map_values(|stage: IsceStage| stage.tier());
        assert(needs =~= seq![
                ResourceTier::Light,
                ResourceTier::Light,
                ResourceTier::Medium,
                ResourceTier::Light,
                ResourceTier::Medium,
                ResourceTier::Medium,
                ResourceTier::Medium,
                ResourceTier::Medium,
                ResourceTier::Medium,
                ResourceTier::Medium,
                ResourceTier::Light,
                ResourceTier::Light,
                ResourceTier::Medium,
                ResourceTier::Light,
                ResourceTier::Medium,
                ResourceTier::Heavy,
        ]);
    }
}

/// Each variant maps to a step name of MintPy. The order is that of the
/// small-baseline workflow.
#[derive(Debug, Clone, Copy, PartialEq, Eq, Structural)]
pub enum MintpyStage {
    LoadData,
    ModifyNetwork,
    ReferencePoint,
    QuickOverview,
    CorrectUnwrapError,
    InvertNetwork,
    CorrectLod,
    CorrectSet,
    CorrectIonosphere,
    CorrectTroposphere,
    Deramp,
    CorrectTopography,
    ResidualRms,
    ReferenceDate,
    Velocity,
    Geocode,
    GoogleEarth,
    HdfEos5,
}

impl MintpyStage {
    /// The name stored in the `job_stage` column and passed to the container.
    pub open spec fn name(self) -> Seq<char> {
        match self {
            Self::LoadData => "load_data"@,
            Self::ModifyNetwork => "modify_network"@,
            Self::ReferencePoint => "reference_point"@,
            Self::QuickOverview => "quick_overview"@,
            Self::CorrectUnwrapError => "correct_unwrap_error"@,
            Self::InvertNetwork => "invert_network"@,
            Self::CorrectLod => "correct_LOD"@,
            Self::CorrectSet => "correct_SET"@,
            Self::CorrectIonosphere => "correct_ionosphere"@,
            Self::CorrectTroposphere => "correct_troposphere"@,
            Self::Deramp => "deramp"@,
            Self::CorrectTopography => "correct_topography"@,
            Self::ResidualRms => "residual_RMS"@,
            Self::ReferenceDate => "reference_date"@,
            Self::Velocity => "velocity"@,
            Self::Geocode => "geocode"@,
            Self::GoogleEarth => "google_earth"@,
            Self::HdfEos5 => "hdfeos5"@,
        }
    }

    /// The place of the stage in the sequence, from 0.
    pub open spec fn index(self) -> int {
        match self {
            Self::LoadData => 0,
            Self::ModifyNetwork => 1,
            Self::ReferencePoint => 2,
            Self::QuickOverview => 3,
            Self::CorrectUnwrapError => 4,
            Self::InvertNetwork => 5,
            Self::CorrectLod => 6,
            Self::CorrectSet => 7,
            Self::CorrectIonosphere => 8,
            Self::CorrectTroposphere => 9,
            Self::Deramp => 10,
            Self::CorrectTopography => 11,
            Self::ResidualRms => 12,
            Self::ReferenceDate => 13,
            Self::Velocity => 14,
            Self::Geocode => 15,
            Self::GoogleEarth => 16,
            Self::HdfEos5 => 17,
        }
    }

    /// The resources that the stage needs.
    pub open spec fn tier(self) -> ResourceTier {
        match self {
            Self::LoadData
            | Self::ModifyNetwork
            | Self::ReferencePoint
            | Self::QuickOverview
            | Self::ReferenceDate
            | Self::GoogleEarth
            | Self::HdfEos5 => ResourceTier::Light,
            Self::Velocity => ResourceTier::Heavy,
            _ => ResourceTier::Medium,
        }
    }

    /// Whether `later` is the stage right behind this one.
    pub open spec fn precedes(self, later: MintpyStage) -> bool {
        later.index() == self.index() + 1
    }

    /// The stage that the sequence starts with.
    pub fn first() -> (r: Self)
        ensures
            r.index() == 0,
    {
        Self::LoadData
    }

    /// The name of the stage.
    pub fn as_str(&self) -> (r: &'static str)
        ensures
            r@ == self.name(),
    {
        match self {
            Self::LoadData => "load_data",
            Self::ModifyNetwork => "modify_network",
            Self::ReferencePoint => "reference_point",
            Self::QuickOverview => "quick_overview",
            Self::CorrectUnwrapError => "correct_unwrap_error",
            Self::InvertNetwork => "invert_network",
            Self::CorrectLod => "correct_LOD",
            Self::CorrectSet => "correct_SET",
            Self::CorrectIonosphere => "correct_ionosphere",
            Self::CorrectTroposphere => "correct_troposphere",
            Self::Deramp => "deramp",
            Self::CorrectTopography => "correct_topography",
            Self::ResidualRms => "residual_RMS",
            Self::ReferenceDate => "reference_date",
            Self::Velocity => "velocity",
            Self::Geocode => "geocode",
            Self::GoogleEarth => "google_earth",
            Self::HdfEos5 => "hdfeos5",
        }
    }

    /// The stage right behind this one; none behind the last.
    pub fn next(&self) -> (r: Option<Self>)
        ensures
            match r {
                Some(later) => self.precedes(later),
                None => self.index() == 17,
            },
    {
        match self {
            Self::LoadData => Some(Self::ModifyNetwork),
            Self::ModifyNetwork => Some(Self::ReferencePoint),
            Self::ReferencePoint => Some(Self::QuickOverview),
            Self::QuickOverview => Some(Self::CorrectUnwrapError),
            Self::CorrectUnwrapError => Some(Self::InvertNetwork),
            Self::InvertNetwork => Some(Self::CorrectLod),
            Self::CorrectLod => Some(Self::CorrectSet),
            Self::CorrectSet => Some(Self::CorrectIonosphere),
            Self::CorrectIonosphere => Some(Self::CorrectTroposphere),
            Self::CorrectTroposphere => Some(Self::Deramp),
            Self::Deramp => Some(Self::CorrectTopography),
            Self::CorrectTopography => Some(Self::ResidualRms),
            Self::ResidualRms => Some(Self::ReferenceDate),
            Self::ReferenceDate => Some(Self::Velocity),
            Self::Velocity => Some(Self::Geocode),
            Self::Geocode => Some(Self::GoogleEarth),
            Self::GoogleEarth => Some(Self::HdfEos5),
            Self::HdfEos5 => None,
        }
    }

    /// The stage that a text names.
    pub open spec fn named(s: Seq<char>) -> Option<MintpyStage> {
        if exists|stage: MintpyStage| s == #[trigger] stage.name() {
            Some(choose|stage: MintpyStage| s == #[trigger] stage.name())
        } else {
            None
        }
    }

    /// The stage of a given name; none for any other text.
    pub fn from_str(s: &str) -> (r: Option<Self>)
        ensures
            r == Self::named(s@),
    {
        let r = Self::lookup(s);
        proof {
            if r is Some {
                Self::named_is_unique(r->0);
            }
        }
        r
    }

    /// The stage whose name reads back is the stage itself.
    pub proof fn named_is_unique(stage: MintpyStage)
        ensures
            Self::named(stage.name()) == Some(stage),
    {
        Self::names_differ(Self::named(stage.name())->0, stage);
    }

    fn lookup(s: &str) -> (r: Option<Self>)
        ensures
            match r {
                Some(stage) => s@ == stage.name(),
                None => forall|stage: MintpyStage| s@ != #[trigger] stage.name(),
            },
    {
        if text_eq(s, "load_data") {
            Some(Self::LoadData)
        } else if text_eq(s, "modify_network") {
            Some(Self::ModifyNetwork)
        } else if text_eq(s, "reference_point") {
            Some(Self::ReferencePoint)
        } else if text_eq(s, "quick_overview") {
            Some(Self::QuickOverview)
        } else if text_eq(s, "correct_unwrap_error") {
            Some(Self::CorrectUnwrapError)
        } else if text_eq(s, "invert_network") {
            Some(Self::InvertNetwork)
        } else if text_eq(s, "correct_LOD") {
            Some(Self::CorrectLod)
        } else if text_eq(s, "correct_SET") {
            Some(Self::CorrectSet)
        } else if text_eq(s, "correct_ionosphere") {
            Some(Self::CorrectIonosphere)
        } else if text_eq(s, "correct_troposphere") {
            Some(Self::CorrectTroposphere)
        } else if text_eq(s, "deramp") {
            Some(Self::Deramp)
        } else if text_eq(s, "correct_topography") {
            Some(Self::CorrectTopography)
        } else if text_eq(s, "residual_RMS") {
            Some(Self::ResidualRms)
        } else if text_eq(s, "reference_date") {
            Some(Self::ReferenceDate)
        } else if text_eq(s, "velocity") {
            Some(Self::Velocity)
        } else if text_eq(s, "geocode") {
            Some(Self::Geocode)
        } else if text_eq(s, "google_earth") {
            Some(Self::GoogleEarth)
        } else if text_eq(s, "hdfeos5") {
            Some(Self::HdfEos5)
        } else {
            None
        }
    }

    /// The resources that the stage needs.
    pub fn resource_tier(&self) -> (r: ResourceTier)
        ensures
            r == self.tier(),
    {
        match self {
            Self::LoadData
            | Self::ModifyNetwork
            | Self::ReferencePoint
            | Self::QuickOverview
            | Self::ReferenceDate
            | Self::GoogleEarth
            | Self::HdfEos5 => ResourceTier::Light,
            Self::CorrectUnwrapError
            | Self::InvertNetwork
            | Self::CorrectLod
            | Self::CorrectSet
            | Self::CorrectIonosphere
            | Self::CorrectTroposphere
            | Self::Deramp
            | Self::CorrectTopography
            | Self::ResidualRms
            | Self::Geocode => ResourceTier::Medium,
            Self::Velocity => ResourceTier::Heavy,
        }
    }

    /// Different stages have different names.
    pub proof fn names_differ(a: MintpyStage, b: MintpyStage)
        requires
            a.name() == b.name(),
        ensures
            a == b,
    {
        reveal_strlit("load_data");
        reveal_strlit("modify_network");
        reveal_strlit("reference_point");
        reveal_strlit("quick_overview");
        reveal_strlit("correct_unwrap_error");
        reveal_strlit("invert_network");
        reveal_strlit("correct_LOD");
        reveal_strlit("correct_SET");
        reveal_strlit("correct_ionosphere");
        reveal_strlit("correct_troposphere");
        reveal_strlit("deramp");
        reveal_strlit("correct_topography");
        reveal_strlit("residual_RMS");
        reveal_strlit("reference_date");
        reveal_strlit("velocity");
        reveal_strlit("geocode");
        reveal_strlit("google_earth");
        reveal_strlit("hdfeos5");
        assert("load_data"@.len() == 9);
        assert("modify_network"@.len() == 14);
        assert("reference_point"@.len() == 15);
        assert("quick_overview"@.len() == 14);
        assert("correct_unwrap_error"@.len() == 20);
        assert("invert_network"@.len() == 14);
        assert("correct_LOD"@.len() == 11);
        assert("correct_SET"@.len() == 11);
        assert("correct_ionosphere"@.len() == 18);
        assert("correct_troposphere"@.len() == 19);
        assert("deramp"@.len() == 6);
        assert("correct_topography"@.len() == 18);
        assert("residual_RMS"@.len() == 12);
        assert("reference_date"@.len() == 14);
        assert("velocity"@.len() == 8);
        assert("geocode"@.len() == 7);
        assert("google_earth"@.len() == 12);
        assert("hdfeos5"@.len() == 7);
        assert(Self::ModifyNetwork.name()[0] != Self::QuickOverview.name()[0]);
        assert(Self::ModifyNetwork.name()[0] != Self::InvertNetwork.name()[0]);
        assert(Self::ModifyNetwork.name()[0] != Self::ReferenceDate.name()[0]);
        assert(Self::QuickOverview.name()[0] != Self::InvertNetwork.name()[0]);
        assert(Self::QuickOverview.name()[0] != Self::ReferenceDate.name()[0]);
        assert(Self::InvertNetwork.name()[0] != Self::ReferenceDate.name()[0]);
        assert(Self::CorrectLod.name()[8] != Self::CorrectSet.name()[8]);
        assert(Self::CorrectIonosphere.name()[8] != Self::CorrectTopography.name()[8]);
        assert(Self::ResidualRms.name()[0] != Self::GoogleEarth.name()[0]);
        assert(Self::Geocode.name()[0] != Self::HdfEos5.name()[0]);
    }

    /// A run of the container: from the first stage, each stage followed by the
    /// next one, up to a stage with none behind it.
    pub open spec fn is_run(run: Seq<MintpyStage>) -> bool {
        &&& run.len() > 0
        &&& run[0].index() == 0
        &&& forall|i: int| 0 <= i < run.len() - 1 ==> #[trigger] run[i].precedes(run[i + 1])
        &&& forall|later: MintpyStage| !run.last().precedes(later)
    }

    proof fn lemma_run_prefix(run: Seq<MintpyStage>, i: int)
        requires
            Self::is_run(run),
            0 <= i < run.len(),
        ensures
            run[i].index() == i,
        decreases i,
    {
        if i > 0 {
            Self::lemma_run_prefix(run, i - 1);
            assert(run[i - 1].precedes(run[i]));
        }
    }

    /// A run passes through every stage exactly once, in order.
    pub proof fn run_visits_every_stage(run: Seq<MintpyStage>, stage: MintpyStage)
        requires
            Self::is_run(run),
        ensures
            run.len() == 18,
            run[stage.index()] == stage,
    {
        Self::lemma_run_prefix(run, run.len() - 1);
        let last = run.last();
        if last.index() < 17 {
            assert(!last.precedes(Self::ModifyNetwork));
            assert(!last.precedes(Self::ReferencePoint));
            assert(!last.precedes(Self::QuickOverview));
            assert(!last.precedes(Self::CorrectUnwrapError));
            assert(!last.precedes(Self::InvertNetwork));
            assert(!last.precedes(Self::CorrectLod));
            assert(!last.precedes(Self::CorrectSet));
            assert(!last.precedes(Self::CorrectIonosphere));
            assert(!last.precedes(Self::CorrectTroposphere));
            assert(!last.precedes(Self::Deramp));
            assert(!last.precedes(Self::CorrectTopography));
            assert(!last.precedes(Self::ResidualRms));
            assert(!last.precedes(Self::ReferenceDate));
            assert(!last.precedes(Self::Velocity));
            assert(!last.precedes(Self::Geocode));
            assert(!last.precedes(Self::GoogleEarth));
            assert(!last.precedes(Self::HdfEos5));
        }
        Self::lemma_run_prefix(run, stage.index());
    }

    /// Which stage follows which.
    pub proof fn stages_follow_one_another(a: MintpyStage, b: MintpyStage)
        ensures
            a.precedes(b) <==> match a {
                Self::LoadData => b == Self::ModifyNetwork,
                Self::ModifyNetwork => b == Self::ReferencePoint,
                Self::ReferencePoint => b == Self::QuickOverview,
                Self::QuickOverview => b == Self::CorrectUnwrapError,
                Self::CorrectUnwrapError => b == Self::InvertNetwork,
                Self::InvertNetwork => b == Self::CorrectLod,
                Self::CorrectLod => b == Self::CorrectSet,
                Self::CorrectSet => b == Self::CorrectIonosphere,
                Self::CorrectIonosphere => b == Self::CorrectTroposphere,
                Self::CorrectTroposphere => b == Self::Deramp,
                Self::Deramp => b == Self::CorrectTopography,
                Self::CorrectTopography => b == Self::ResidualRms,
                Self::ResidualRms => b == Self::ReferenceDate,
                Self::ReferenceDate => b == Self::Velocity,
                Self::Velocity => b == Self::Geocode,
                Self::Geocode => b == Self::GoogleEarth,
                Self::GoogleEarth => b == Self::HdfEos5,
                Self::HdfEos5 => false,
            },
    {
    }

    /// There is a run: it goes through all the stages, one after another.
    pub proof fn all_stages_make_a_run()
        ensures
            Self::is_run(
                seq![
                    Self::LoadData,
                    Self::ModifyNetwork,
                    Self::ReferencePoint,
                    Self::QuickOverview,
                    Self::CorrectUnwrapError,
                    Self::InvertNetwork,
                    Self::CorrectLod,
                    Self::CorrectSet,
                    Self::CorrectIonosphere,
                    Self::CorrectTroposphere,
                    Self::Deramp,
                    Self::CorrectTopography,
                    Self::ResidualRms,
                    Self::ReferenceDate,
                    Self::Velocity,
                    Self::Geocode,
                    Self::GoogleEarth,
                    Self::HdfEos5,
                ],
            ),
    {
        let run = seq![
            Self::LoadData,
            Self::ModifyNetwork,
            Self::ReferencePoint,
            Self::QuickOverview,
            Self::CorrectUnwrapError,
            Self::InvertNetwork,
            Self::CorrectLod,
            Self::CorrectSet,
            Self::CorrectIonosphere,
            Self::CorrectTroposphere,
            Self::Deramp,
            Self::CorrectTopography,
            Self::ResidualRms,
            Self::ReferenceDate,
            Self::Velocity,
            Self::Geocode,
            Self::GoogleEarth,
            Self::HdfEos5,
        ];
        assert forall|i: int| 0 <= i < run.len() - 1 implies #[trigger] run[i].precedes(
            run[i + 1],
        ) by {}
        assert forall|later: MintpyStage| !run.last().precedes(later) by {
            Self::stages_follow_one_another(run.last(), later);
        }
    }

    /// The stages of a run, by their names: the order in which MintPy needs them.
    pub proof fn run_is_in_order(run: Seq<MintpyStage>)
        requires
            Self::is_run(run),
        ensures
            run.map_values(|stage: MintpyStage| stage.name()) == seq![
                "load_data"@,
                "modify_network"@,
                "reference_point"@,
                "quick_overview"@,
                "correct_unwrap_error"@,
                "invert_network"@,
                "correct_LOD"@,
                "correct_SET"@,
                "correct_ionosphere"@,
                "correct_troposphere"@,
                "deramp"@,
                "correct_topography"@,
                "residual_RMS"@,
                "reference_date"@,
                "velocity"@,
                "geocode"@,
                "google_earth"@,
                "hdfeos5"@,
            ],
    {
        Self::run_visits_every_stage(run, Self::LoadData);
        Self::run_visits_every_stage(run, Self::ModifyNetwork);
        Self::run_visits_every_stage(run, Self::ReferencePoint);
        Self::run_visits_every_stage(run, Self::QuickOverview);
        Self::run_visits_every_stage(run, Self::CorrectUnwrapError);
        Self::run_visits_every_stage(run, Self::InvertNetwork);
        Self::run_visits_every_stage(run, Self::CorrectLod);
        Self::run_visits_every_stage(run, Self::CorrectSet);
        Self::run_visits_every_stage(run, Self::CorrectIonosphere);
        Self::run_visits_every_stage(run, Self::CorrectTroposphere);
        Self::run_visits_every_stage(run, Self::Deramp);
        Self::run_visits_every_stage(run, Self::CorrectTopography);
        Self::run_visits_every_stage(run, Self::ResidualRms);
        Self::run_visits_every_stage(run, Self::ReferenceDate);
        Self::run_visits_every_stage(run, Self::Velocity);
        Self::run_visits_every_stage(run, Self::Geocode);
        Self::run_visits_every_stage(run, Self::GoogleEarth);
        Self::run_visits_every_stage(run, Self::HdfEos5);
        assert(run[0].name() == "load_data"@);
        assert(run[1].name() == "modify_network"@);
        assert(run[2].name() == "reference_point"@);
        assert(run[3].name() == "quick_overview"@);
        assert(run[4].name() == "correct_unwrap_error"@);
        assert(run[5].name() == "invert_network"@);
        assert(run[6].name() == "correct_LOD"@);
        assert(run[7].name() == "correct_SET"@);
        assert(run[8].name() == "correct_ionosphere"@);
        assert(run[9].name() == "correct_troposphere"@);
        assert(run[10].name() == "deramp"@);
        assert(run[11].name() == "correct_topography"@);
        assert(run[12].name() == "residual_RMS"@);
        assert(run[13].name() == "reference_date"@);
        assert(run[14].name() == "velocity"@);
        assert(run[15].name() == "geocode"@);
        assert(run[16].name() == "google_earth"@);
        assert(run[17].name() == "hdfeos5"@);
        let names = run.map_values(|stage: MintpyStage| stage.name());
        assert(names =~= seq![
                "load_data"@,
                "modify_network"@,
                "reference_point"@,
                "quick_overview"@,
                "correct_unwrap_error"@,
                "invert_network"@,
                "correct_LOD"@,
                "correct_SET"@,
                "correct_ionosphere"@,
                "correct_troposphere"@,
                "deramp"@,
                "correct_topography"@,
                "residual_RMS"@,
                "reference_date"@,
                "velocity"@,
                "geocode"@,
                "google_earth"@,
                "hdfeos5"@,
        ]);
    }

    /// The resources that the stages of a run need, in order.
    pub proof fn run_needs_resources(run: Seq<MintpyStage>)
        requires
            Self::is_run(run),
        ensures
            run.map_values(|stage: MintpyStage| stage.tier()) == seq![
                ResourceTier::Light,
                ResourceTier::Light,
                ResourceTier::Light,
                ResourceTier::Light,
                ResourceTier::Medium,
                ResourceTier::Medium,
                ResourceTier::Medium,
                ResourceTier::Medium,
                ResourceTier::Medium,
                ResourceTier::Medium,
                ResourceTier::Medium,
                ResourceTier::Medium,
                ResourceTier::Medium,
                ResourceTier::Light,
                ResourceTier::Heavy,
                ResourceTier::Medium,
                ResourceTier::Light,
                ResourceTier::Light,
            ],
    {
        Self::run_visits_every_stage(run, Self::LoadData);
        Self::run_visits_every_stage(run, Self::ModifyNetwork);
        Self::run_visits_every_stage(run, Self::ReferencePoint);
        Self::run_visits_every_stage(run, Self::QuickOverview);
        Self::run_visits_every_stage(run, Self::CorrectUnwrapError);
        Self::run_visits_every_stage(run, Self::InvertNetwork);
        Self::run_visits_every_stage(run, Self::CorrectLod);
        Self::run_visits_every_stage(run, Self::CorrectSet);
        Self::run_visits_every_stage(run, Self::CorrectIonosphere);
        Self::run_visits_every_stage(run, Self::CorrectTroposphere);
        Self::run_visits_every_stage(run, Self::Deramp);
        Self::run_visits_every_stage(run, Self::CorrectTopography);
        Self::run_visits_every_stage(run, Self::ResidualRms);
        Self::run_visits_every_stage(run, Self::ReferenceDate);
        Self::run_visits_every_stage(run, Self::Velocity);
        Self::run_visits_every_stage(run, Self::Geocode);
        Self::run_visits_every_stage(run, Self::GoogleEarth);
        Self::run_visits_every_stage(run, Self::HdfEos5);
        let needs = run.map_values(|stage: MintpyStage| stage.tier());
        assert(needs =~= seq![
                ResourceTier::Light,
                ResourceTier::Light,
                ResourceTier::Light,
                ResourceTier::Light,
                ResourceTier::Medium,
                ResourceTier::Medium,
                ResourceTier::Medium,
                ResourceTier::Medium,
                ResourceTier::Medium,
                ResourceTier::Medium,
                ResourceTier::Medium,
                ResourceTier::Medium,
                ResourceTier::Medium,
                ResourceTier::Light,
                ResourceTier::Heavy,
                ResourceTier::Medium,
                ResourceTier::Light,
                ResourceTier::Light,
        ]);
    }
}

/// How many stages the MiaplPy container has. None is defined yet.
pub const MIAPLPY_STAGES: u8 = 0;

/// A stage of the MiaplPy container, by its place among the defined ones. As
/// long as none is defined, no value of this type exists.
#[derive(Debug, Clone, Copy, PartialEq, Eq)]
pub struct MiaplpyStage {
    index: u8,
}

impl MiaplpyStage {
    #[verifier::type_invariant]
    spec fn defined(self) -> bool {
        self.index < MIAPLPY_STAGES
    }

    /// The place of the stage among the defined ones.
    pub closed spec fn place(self) -> u8 {
        self.index
    }

    /// Whether the stage is one of the defined ones.
    pub open spec fn valid(self) -> bool {
        self.place() < MIAPLPY_STAGES
    }

    /// The place of the stage among the defined ones.
    pub fn index(&self) -> (r: u8)
        ensures
            r == self.place(),
            self.valid(),
    {
        proof {
            use_type_invariant(self);
        }
        self.index
    }

    /// The name of the stage.
    pub open spec fn name(self) -> Seq<char> {
        ""@
    }

    /// The name of the stage.
    pub fn as_str(&self) -> (r: &'static str)
        ensures
            r@ == self.name(),
    {
        ""
    }

    /// The stage right behind this one.
    pub fn next(&self) -> (r: Option<Self>)
        ensures
            r is None,
    {
        None
    }

    /// The stage of a given name: no text names one.
    pub fn from_str(_s: &str) -> (r: Option<Self>)
        ensures
            r is None,
    {
        None
    }

    /// The resources that the stage needs.
    pub fn resource_tier(&self) -> (r: ResourceTier)
        ensures
            r == ResourceTier::Light,
    {
        ResourceTier::Light
    }
}

} // verus!
