//! Configuration of the scheduler: the machine it runs on, and the resources
//! that processing steps need.
use vstd::prelude::*;

use crate::float64;
use crate::float64::Float64;
use crate::text::text_eq;

verus! {

// ---------------------------------------------------------------------------
// System
// ---------------------------------------------------------------------------

/// Top-level system configuration, loaded from `config.toml`.
#[derive(Debug)]
pub struct SystemConfig {
    pub paths: PathsConfig,
    pub database: DatabaseConfig,
    pub scheduler: SchedulerConfig,
    pub resources: ResourcesConfig,
    pub containers: ContainerImagesConfig,
    pub user_tiers: UserTiersConfig,
}

/// Directories.
#[derive(Debug)]
pub struct PathsConfig {
    /// Root directory under which each job's working directory is created.
    pub jobs_root: String,
    /// Root of the local SAR image archive.
    pub archive_root: String,
    /// Root directory for per-job, per-step log files.
    pub logs_root: String,
}

/// Database connection.
#[derive(Debug)]
pub struct DatabaseConfig {
    pub url: String,
    pub pool_size: u32,
}

impl DatabaseConfig {
    /// The number of connections if none is given.
    pub fn default_pool_size() -> (r: u32)
        ensures
            r == 10,
    {
        10
    }
}

/// The poll loop.
#[derive(Debug, Clone, Copy, PartialEq, Eq, Structural)]
pub struct SchedulerConfig {
    pub poll_interval_secs: u64,
    pub max_concurrent_containers: usize,
}

impl SchedulerConfig {
    /// The seconds between two polls if none are given.
    pub fn default_poll_interval_secs() -> (r: u64)
        ensures
            r == 10,
    {
        10
    }

    /// The number of containers that may run at a time if none is given.
    pub fn default_max_concurrent_containers() -> (r: usize)
        ensures
            r == 16,
    {
        16
    }
}

/// What the machine has.
#[derive(Debug, Clone, Copy, PartialEq, Eq, Structural)]
pub struct ResourcesConfig {
    pub total_cpu_cores: u32,
    pub total_ram_gb: Float64,
}

/// Docker images.
#[derive(Debug)]
pub struct ContainerImagesConfig {
    pub download: String,
    pub isce2: String,
    pub mintpy: String,
    pub miaplpy: String,
    pub results: String,
}

/// Submission limits for all account tiers. Enforced by the API server at
/// job submission time. The scheduler reads these only to enforce the
/// `max_concurrent_jobs` limit at dispatch time.
#[derive(Debug, Clone, Copy, PartialEq, Eq, Structural)]
pub struct UserTiersConfig {
    pub demo: TierLimitsConfig,
    pub free: TierLimitsConfig,
    pub pro: TierLimitsConfig,
}

/// Resource and usage limits for a single user tier.
#[derive(Debug, Clone, Copy, PartialEq, Eq, Structural)]
pub struct TierLimitsConfig {
    /// Maximum allowed AOI area in km². `0` means unlimited.
    pub max_aoi_km2: u64,
    /// Maximum allowed time range in days. `0` means unlimited.
    pub max_time_range_days: u64,
    /// Maximum number of jobs this user may have in an active (non-terminal)
    /// state simultaneously. `0` means unlimited.
    pub max_concurrent_jobs: u64,
    /// Maximum number of jobs this user may submit per calendar month.
    /// `0` means unlimited.
    pub max_jobs_per_month: u64,
}

impl TierLimitsConfig {
    /// Returns `true` if `value` is within the limit, respecting the
    /// convention that `0` means unlimited.
    pub fn within_limit(limit: u64, value: u64) -> (r: bool)
        ensures
            r == (limit == 0 || value <= limit),
    {
        limit == 0 || value <= limit
    }
}

// ---------------------------------------------------------------------------
// Workflows
// ---------------------------------------------------------------------------

/// The bits of 4.
pub const FOUR: u64 = 0x4010_0000_0000_0000;

/// The bits of 16.
pub const SIXTEEN: u64 = 0x4030_0000_0000_0000;

/// The bits of 32.
pub const THIRTY_TWO: u64 = 0x4040_0000_0000_0000;

/// CPU and RAM requirement for a single processing step.
#[derive(Debug, Clone, Copy, PartialEq, Eq, Structural)]
pub struct StepResourceConfig {
    /// Number of logical CPU cores to allocate to the container.
    pub cpu_cores: u32,
    /// Amount of RAM to allocate to the container, in gigabytes.
    pub ram_gb: Float64,
}

/// The resources of the step of one name.
#[derive(Debug)]
pub struct StepOverride {
    pub stage: String,
    pub resources: StepResourceConfig,
}

/// The three resource tiers used as defaults when no per-step override exists.
#[derive(Debug, Clone, Copy, PartialEq, Eq, Structural)]
pub struct ResourceTiersConfig {
    /// I/O-bound steps: unpacking, extracting, merging intermediate products.
    pub light: StepResourceConfig,
    /// Compute and I/O steps: resampling, geocoding, interferogram generation.
    pub medium: StepResourceConfig,
    /// CPU/RAM-intensive steps: phase unwrapping.
    pub heavy: StepResourceConfig,
}

proof fn lemma_power_of_two(bits: u64, exp: nat, n: int)
    requires
        bits < float64::INFINITY_BITS,
        float64::exponent(bits as int) == exp,
        float64::mantissa(bits as int) == float64::FRACTION_WEIGHT,
        1022 <= exp < 1074,
        n == vstd::arithmetic::power2::pow2((exp - 1022) as nat),
    ensures
        (Float64 { bits }).scaled() == float64::units(n),
{
    vstd::arithmetic::power2::lemma2_to64();
    vstd::arithmetic::power2::lemma2_to64_rest();
    vstd::arithmetic::power2::lemma_pow2_adds(exp, 52);
    vstd::arithmetic::power2::lemma_pow2_adds(1074, (exp - 1022) as nat);
    assert(float64::magnitude(bits) == bits);
    assert(float64::FRACTION_WEIGHT * vstd::arithmetic::power2::pow2(exp) as int
        == vstd::arithmetic::power2::pow2(exp) as int * float64::FRACTION_WEIGHT)
        by (nonlinear_arith);
    assert(n * vstd::arithmetic::power2::pow2(1074) as int == vstd::arithmetic::power2::pow2(1074) as int
        * n) by (nonlinear_arith);
}

impl ResourceTiersConfig {
    /// The light tier if none is given.
    pub fn default_light() -> (r: StepResourceConfig)
        ensures
            r.cpu_cores == 2,
            r.ram_gb.scaled() == float64::units(4),
    {
        proof {
            vstd::arithmetic::power2::lemma2_to64();
            lemma_power_of_two(FOUR, 1024, 4);
        }
        StepResourceConfig { cpu_cores: 2, ram_gb: Float64 { bits: FOUR } }
    }

    /// The medium tier if none is given.
    pub fn default_medium() -> (r: StepResourceConfig)
        ensures
            r.cpu_cores == 4,
            r.ram_gb.scaled() == float64::units(16),
    {
        proof {
            vstd::arithmetic::power2::lemma2_to64();
            lemma_power_of_two(SIXTEEN, 1026, 16);
        }
        StepResourceConfig { cpu_cores: 4, ram_gb: Float64 { bits: SIXTEEN } }
    }

    /// The heavy tier if none is given.
    pub fn default_heavy() -> (r: StepResourceConfig)
        ensures
            r.cpu_cores == 8,
            r.ram_gb.scaled() == float64::units(32),
    {
        proof {
            vstd::arithmetic::power2::lemma2_to64();
            lemma_power_of_two(THIRTY_TWO, 1027, 32);
        }
        StepResourceConfig { cpu_cores: 8, ram_gb: Float64 { bits: THIRTY_TWO } }
    }
}

/// Top-level workflow configuration, loaded from `workflows.toml`.
#[derive(Debug)]
pub struct WorkflowConfig {
    /// Default resource requirements grouped by tier. These apply to any step
    /// not listed in a per-step override.
    pub tiers: ResourceTiersConfig,
    /// Per-step resource overrides for ISCE2 stages, each stage once. The name
    /// is the snake_case stage name matching the `IsceStage` variants
    /// (e.g. `"phase_unwrap"`).
    pub isce2_overrides: Vec<StepOverride>,
    /// Per-step resource overrides for MintPy stages.
    pub mintpy_overrides: Vec<StepOverride>,
    /// Per-step resource overrides for MiaplPy stages.
    pub miaplpy_overrides: Vec<StepOverride>,
    /// Resource requirements for the download/fetch step.
    pub download: StepResourceConfig,
}

impl WorkflowConfig {
    /// The resources of the download step if none are given.
    pub fn default_download_resources() -> (r: StepResourceConfig)
        ensures
            r.cpu_cores == 2,
            r.ram_gb.scaled() == float64::units(4),
    {
        ResourceTiersConfig::default_light()
    }
}

// ---------------------------------------------------------------------------
// Validation
// ---------------------------------------------------------------------------

/// Why a configuration cannot be used.
#[derive(Debug, Clone, Copy, PartialEq, Eq, Structural)]
pub enum ConfigError {
    NoCpu,
    NoRam,
    NoContainers,
    EmptyDatabaseUrl,
    TierWithoutCpu,
    TierWithoutRam,
}

impl ConfigError {
    /// The text that describes the error.
    pub open spec fn text(self) -> Seq<char> {
        match self {
            Self::NoCpu => "resources.total_cpu_cores must be greater than 0"@,
            Self::NoRam => "resources.total_ram_gb must be greater than 0"@,
            Self::NoContainers => "scheduler.max_concurrent_containers must be greater than 0"@,
            Self::EmptyDatabaseUrl => "database.url must not be empty"@,
            Self::TierWithoutCpu => "All resource tier cpu_cores values must be greater than 0"@,
            Self::TierWithoutRam => "All resource tier ram_gb values must be greater than 0"@,
        }
    }

    /// The text that describes the error.
    pub fn message(&self) -> (r: &'static str)
        ensures
            r@ == self.text(),
    {
        match self {
            Self::NoCpu => "resources.total_cpu_cores must be greater than 0",
            Self::NoRam => "resources.total_ram_gb must be greater than 0",
            Self::NoContainers => "scheduler.max_concurrent_containers must be greater than 0",
            Self::EmptyDatabaseUrl => "database.url must not be empty",
            Self::TierWithoutCpu => "All resource tier cpu_cores values must be greater than 0",
            Self::TierWithoutRam => "All resource tier ram_gb values must be greater than 0",
        }
    }
}

/// Whether a number is at most zero. A pattern that is no number is not.
pub open spec fn not_positive(x: Float64) -> bool {
    !x.is_nan() && x.scaled() <= 0
}

fn at_most_zero(x: Float64) -> (r: bool)
    ensures
        r == not_positive(x),
{
    let zero = Float64 { bits: float64::ZERO_BITS };
    proof {
        assert(zero.scaled() == 0) by {
            assert(float64::mantissa(0) == 0);
            assert(float64::scaled_magnitude(0) == 0) by (nonlinear_arith)
                requires
                    float64::mantissa(0) == 0,
            ;
        }
    }
    x.le(zero)
}

/// What is wrong with a system configuration, first things first.
pub open spec fn system_error(config: SystemConfig) -> Option<ConfigError> {
    if config.resources.total_cpu_cores == 0 {
        Some(ConfigError::NoCpu)
    } else if not_positive(config.resources.total_ram_gb) {
        Some(ConfigError::NoRam)
    } else if config.scheduler.max_concurrent_containers == 0 {
        Some(ConfigError::NoContainers)
    } else if config.database.url@ == ""@ {
        Some(ConfigError::EmptyDatabaseUrl)
    } else {
        None
    }
}

/// Checks a system configuration.
pub fn validate_system_config(config: &SystemConfig) -> (r: Result<(), ConfigError>)
    ensures
        match r {
            Ok(()) => system_error(*config) is None,
            Err(error) => system_error(*config) == Some(error),
        },
{
    if config.resources.total_cpu_cores == 0 {
        return Err(ConfigError::NoCpu);
    }
    if at_most_zero(config.resources.total_ram_gb) {
        return Err(ConfigError::NoRam);
    }
    if config.scheduler.max_concurrent_containers == 0 {
        return Err(ConfigError::NoContainers);
    }
    if text_eq(config.database.url.as_str(), "") {
        return Err(ConfigError::EmptyDatabaseUrl);
    }
    Ok(())
}

/// What is wrong with a workflow configuration, first things first.
pub open spec fn workflow_error(config: WorkflowConfig) -> Option<ConfigError> {
    let tiers = config.tiers;
    if tiers.light.cpu_cores == 0 || tiers.medium.cpu_cores == 0 || tiers.heavy.cpu_cores == 0 {
        Some(ConfigError::TierWithoutCpu)
    } else if not_positive(tiers.light.ram_gb) || not_positive(tiers.medium.ram_gb) || not_positive(
        tiers.heavy.ram_gb,
    ) {
        Some(ConfigError::TierWithoutRam)
    } else {
        None
    }
}

/// Checks a workflow configuration.
pub fn validate_workflow_config(config: &WorkflowConfig) -> (r: Result<(), ConfigError>)
    ensures
        match r {
            Ok(()) => workflow_error(*config) is None,
            Err(error) => workflow_error(*config) == Some(error),
        },
{
    let tiers = &config.tiers;
    if tiers.light.cpu_cores == 0 || tiers.medium.cpu_cores == 0 || tiers.heavy.cpu_cores == 0 {
        return Err(ConfigError::TierWithoutCpu);
    }
    if at_most_zero(tiers.light.ram_gb) || at_most_zero(tiers.medium.ram_gb) || at_most_zero(
        tiers.heavy.ram_gb,
    ) {
        return Err(ConfigError::TierWithoutRam);
    }
    Ok(())
}

/// A system can be run with exactly where it has cores, memory, room for a container
/// and a database.
pub proof fn systems_need_everything(config: SystemConfig)
    ensures
        system_error(config) is None <==> config.resources.total_cpu_cores > 0 && !(
        !config.resources.total_ram_gb.is_nan() && config.resources.total_ram_gb.scaled() <= 0)
            && config.scheduler.max_concurrent_containers > 0 && config.database.url@ != ""@,
{
}

/// A workflow can be run with exactly where each of the three tiers has cores and
/// memory.
pub proof fn workflows_need_every_tier(config: WorkflowConfig)
    ensures
        workflow_error(config) is None <==> config.tiers.light.cpu_cores > 0
            && config.tiers.medium.cpu_cores > 0 && config.tiers.heavy.cpu_cores > 0 && !(
        !config.tiers.light.ram_gb.is_nan() && config.tiers.light.ram_gb.scaled() <= 0) && !(
        !config.tiers.medium.ram_gb.is_nan() && config.tiers.medium.ram_gb.scaled() <= 0) && !(
        !config.tiers.heavy.ram_gb.is_nan() && config.tiers.heavy.ram_gb.scaled() <= 0),
{
}

} // verus!
