//! Configuration of the API server.
use vstd::prelude::*;

use crate::number;
use crate::number::decimal_u64;
use crate::text;
use crate::text::{concat3, starts_with, text_eq};

verus! {

/// The whole configuration.
#[derive(Debug)]
pub struct ServerConfig {
    pub server: HttpConfig,
    pub database: DatabaseConfig,
    pub paths: PathsConfig,
    pub auth: AuthConfig,
    pub asf: AsfConfig,
    pub defaults: DefaultsConfig,
    pub containers: ContainersConfig,
    pub user_tiers: UserTiersConfig,
}

/// HTTP listener.
#[derive(Debug)]
pub struct HttpConfig {
    pub host: String,
    pub port: u16,
}

impl HttpConfig {
    /// The host to listen on if none is given.
    pub fn default_host() -> (r: String)
        ensures
            r@ == "127.0.0.1"@,
    {
        "127.0.0.1".to_owned()
    }

    /// The port to listen on if none is given.
    pub fn default_port() -> (r: u16)
        ensures
            r == 8080,
    {
        8080
    }

    /// The address to listen on.
    pub fn bind_addr(&self) -> (r: String)
        ensures
            r@ == self.host@ + ":"@ + number::decimal(self.port as int),
    {
        concat3(self.host.as_str(), ":", decimal_u64(self.port as u64).as_str())
    }
}

/// Database connection.
#[derive(Debug)]
pub struct DatabaseConfig {
    pub url: String,
    pub pool_size: u32,
}

impl DatabaseConfig {
    /// The number of connections if none is given.
    pub fn default_pool_size() -> (r: u32)
        ensures
            r == 10,
    {
        10
    }
}

/// Directories.
#[derive(Debug)]
pub struct PathsConfig {
    /// Root directory under which each job's working directory is created.
    /// Must match the scheduler's `jobs_root`.
    pub jobs_root: String,
    /// Root of the local SAR image archive. Used when building
    /// `burst_list.json` DATA/METADATA paths.
    pub archive_root: String,
    /// Root directory containing pre-computed demo jobs.
    /// Each subdirectory is a demo with the same layout as a job's work_dir.
    pub demos_root: String,
}

impl PathsConfig {
    /// The root of the demos if none is given.
    pub fn default_demos_root() -> (r: String)
        ensures
            r@ == "/sisar/demos"@,
    {
        "/sisar/demos".to_owned()
    }
}

/// An interface and the bearer token that it identifies itself with.
#[derive(Debug)]
pub struct InterfaceSecret {
    pub name: String,
    pub token: String,
}

/// Authentication.
#[derive(Debug)]
pub struct AuthConfig {
    /// The interfaces, each name once.
    pub interface_tokens: Vec<InterfaceSecret>,
}

impl AuthConfig {
    /// Whether `name` is an interface that has this token.
    pub open spec fn holds(self, name: Seq<char>, token: Seq<char>) -> bool {
        exists|i: int|
            0 <= i < self.interface_tokens.len() && (#[trigger] self.interface_tokens[i]).name@
                == name && self.interface_tokens[i].token@ == token
    }

    /// Returns the interface name for the given token, if it matches any
    /// registered interface token.
    pub fn identify_token(&self, token: &str) -> (r: Option<&str>)
        ensures
            match r {
                Some(name) => self.holds(name@, token@),
                None => forall|name: Seq<char>| !self.holds(name, token@),
            },
    {
        for i in 0..self.interface_tokens.len()
            invariant
                forall|j: int|
                    0 <= j < i ==> (#[trigger] self.interface_tokens[j]).token@ != token@,
        {
            if text_eq(self.interface_tokens[i].token.as_str(), token) {
                return Some(self.interface_tokens[i].name.as_str());
            }
        }
        None
    }
}

/// ASF search.
#[derive(Debug)]
pub struct AsfConfig {
    pub endpoint: String,
}

impl AsfConfig {
    /// The search service if none is given.
    pub fn default_endpoint() -> (r: String)
        ensures
            r@ == "https://api.daac.asf.alaska.edu/services/search/param"@,
    {
        "https://api.daac.asf.alaska.edu/services/search/param".to_owned()
    }
}

/// Processing parameters for requests that leave them open.
#[derive(Debug, Clone, Copy, PartialEq, Eq, Structural)]
pub struct DefaultsConfig {
    pub range_looks: u32,
    pub azimuth_looks: u32,
    pub connections: u8,
}

impl DefaultsConfig {
    /// The number of looks in range if none is given.
    pub fn default_range_looks() -> (r: u32)
        ensures
            r == 20,
    {
        20
    }

    /// The number of looks in azimuth if none is given.
    pub fn default_azimuth_looks() -> (r: u32)
        ensures
            r == 5,
    {
        5
    }

    /// The number of connections if none is given.
    pub fn default_connections() -> (r: u8)
        ensures
            r == 1,
    {
        1
    }
}

/// Docker images.
#[derive(Debug)]
pub struct ContainersConfig {
    /// Docker image used to extract and visualise timeseries from HDF5 output.
    pub results: String,
}

/// Limits of every tier.
#[derive(Debug)]
pub struct UserTiersConfig {
    pub demo: TierLimitsConfig,
    pub free: TierLimitsConfig,
    pub pro: TierLimitsConfig,
}

impl UserTiersConfig {
    /// The limits of the tier of this name.
    pub open spec fn limits(self, tier: Seq<char>) -> Option<TierLimitsConfig> {
        if tier == "demo"@ {
            Some(self.demo)
        } else if tier == "free"@ {
            Some(self.free)
        } else if tier == "pro"@ {
            Some(self.pro)
        } else {
            None
        }
    }

    /// The limits of the tier of a given name; none for any other text.
    pub fn for_tier(&self, tier: &str) -> (r: Option<&TierLimitsConfig>)
        ensures
            match r {
                Some(limits) => self.limits(tier@) == Some(*limits),
                None => self.limits(tier@) is None,
            },
    {
        if text_eq(tier, "demo") {
            Some(&self.demo)
        } else if text_eq(tier, "free") {
            Some(&self.free)
        } else if text_eq(tier, "pro") {
            Some(&self.pro)
        } else {
            None
        }
    }
}

/// Limits of one tier.
#[derive(Debug, Clone, Copy, PartialEq, Eq, Structural)]
pub struct TierLimitsConfig {
    /// Maximum AOI area in km². `0` = unlimited.
    pub max_aoi_km2: u64,
    /// Maximum time range in days. `0` = unlimited.
    pub max_time_range_days: u64,
    /// Maximum simultaneously active jobs. `0` = unlimited.
    pub max_concurrent_jobs: u64,
    /// Maximum jobs submitted per calendar month. `0` = unlimited.
    pub max_jobs_per_month: u64,
}

impl TierLimitsConfig {
    /// Whether a limit allows a value: 0 allows every value.
    pub open spec fn allows(limit: u64, value: u64) -> bool {
        limit == 0 || value <= limit
    }

    /// Returns `true` if `value` is within `limit`, treating `0` as unlimited.
    pub fn within_limit(limit: u64, value: u64) -> (r: bool)
        ensures
            r == Self::allows(limit, value),
    {
        limit == 0 || value <= limit
    }
}

/// What a limit allows, it allows of every smaller value too.
pub proof fn limits_are_monotone(limit: u64, smaller: u64, value: u64)
    requires
        smaller <= value,
        TierLimitsConfig::allows(limit, value),
    ensures
        TierLimitsConfig::allows(limit, smaller),
{
}

// ---------------------------------------------------------------------------
// Validation
// ---------------------------------------------------------------------------

/// Why a configuration cannot be used.
#[derive(Debug)]
pub enum ConfigError {
    EmptyDatabaseUrl,
    NoInterfaceTokens,
    /// The token of the interface of this name is empty or a placeholder.
    TokenNotSet(String),
    EmptyResultsImage,
}

impl ConfigError {
    /// The text that describes the error.
    pub open spec fn text(self) -> Seq<char> {
        match self {
            Self::EmptyDatabaseUrl => "database.url must not be empty"@,
            Self::NoInterfaceTokens => "auth.interface_tokens must contain at least one entry"@,
            Self::TokenNotSet(name) => "auth.interface_tokens."@ + name@
                + " has not been set to a real secret"@,
            Self::EmptyResultsImage => "containers.results must not be empty"@,
        }
    }

    /// The text that describes the error.
    pub fn message(&self) -> (r: String)
        ensures
            r@ == self.text(),
    {
        match self {
            Self::EmptyDatabaseUrl => "database.url must not be empty".to_owned(),
            Self::NoInterfaceTokens => {
                "auth.interface_tokens must contain at least one entry".to_owned()
            },
            Self::TokenNotSet(name) => concat3(
                "auth.interface_tokens.",
                name.as_str(),
                " has not been set to a real secret",
            ),
            Self::EmptyResultsImage => "containers.results must not be empty".to_owned(),
        }
    }
}

/// Whether a token is a secret that somebody chose.
pub open spec fn is_real_token(token: Seq<char>) -> bool {
    token != ""@ && !"CHANGE_ME"@.is_prefix_of(token)
}

impl ServerConfig {
    /// Whether the token of the interface at position `i` has been chosen.
    pub open spec fn token_set(self, i: int) -> bool {
        is_real_token(self.auth.interface_tokens[i].token@)
    }

    /// Whether the server can run with the configuration.
    pub open spec fn usable(self) -> bool {
        &&& self.database.url@ != ""@
        &&& self.auth.interface_tokens.len() > 0
        &&& forall|i: int|
            0 <= i < self.auth.interface_tokens.len() ==> #[trigger] self.token_set(i)
        &&& self.containers.results@ != ""@
    }
}

/// Checks a configuration: the database, then the tokens in order, then the
/// images.
pub fn validate(cfg: &ServerConfig) -> (r: Result<(), ConfigError>)
    ensures
        match r {
            Ok(()) => cfg.usable(),
            Err(ConfigError::EmptyDatabaseUrl) => cfg.database.url@ == ""@,
            Err(ConfigError::NoInterfaceTokens) => cfg.database.url@ != ""@
                && cfg.auth.interface_tokens.len() == 0,
            Err(ConfigError::TokenNotSet(name)) => cfg.database.url@ != ""@ && exists|i: int|
                0 <= i < cfg.auth.interface_tokens.len() && !(#[trigger] cfg.token_set(i))
                    && cfg.auth.interface_tokens[i].name@ == name@,
            Err(ConfigError::EmptyResultsImage) => cfg.containers.results@ == ""@
                && cfg.database.url@ != ""@ && cfg.auth.interface_tokens.len() > 0 && forall|i: int|
                0 <= i < cfg.auth.interface_tokens.len() ==> #[trigger] cfg.token_set(i),
        },
{
    if text_eq(cfg.database.url.as_str(), "") {
        return Err(ConfigError::EmptyDatabaseUrl);
    }
    if cfg.auth.interface_tokens.len() == 0 {
        return Err(ConfigError::NoInterfaceTokens);
    }
    for i in 0..cfg.auth.interface_tokens.len()
        invariant
            cfg.database.url@ != ""@,
            forall|j: int| 0 <= j < i ==> #[trigger] cfg.token_set(j),
    {
        let secret = &cfg.auth.interface_tokens[i];
        if text_eq(secret.token.as_str(), "") || starts_with(secret.token.as_str(), "CHANGE_ME") {
            assert(!cfg.token_set(i as int));
            return Err(ConfigError::TokenNotSet(secret.name.clone()));
        }
        assert(cfg.token_set(i as int));
    }
    if text_eq(cfg.containers.results.as_str(), "") {
        return Err(ConfigError::EmptyResultsImage);
    }
    Ok(())
}

/// A server can be run with exactly where it has a database, at least one interface,
/// an image for results, and for every interface a token that is neither empty nor
/// begins as the placeholder does.
pub proof fn servers_need_real_tokens(config: ServerConfig)
    ensures
        config.usable() <==> config.database.url@ != ""@ && config.auth.interface_tokens.len() > 0
            && config.containers.results@ != ""@ && (forall|i: int|
            0 <= i < config.auth.interface_tokens.len() ==> (
            #[trigger] config.auth.interface_tokens[i]).token@ != ""@ && !"CHANGE_ME"@.is_prefix_of(
                config.auth.interface_tokens[i].token@,
            )),
{
    if config.usable() {
        assert forall|i: int| 0 <= i < config.auth.interface_tokens.len() implies (
        #[trigger] config.auth.interface_tokens[i]).token@ != ""@ && !"CHANGE_ME"@.is_prefix_of(
            config.auth.interface_tokens[i].token@,
        ) by {
            assert(config.token_set(i));
        }
    }
}

/// Each tier has its own limits.
pub proof fn tiers_have_their_own_limits(tiers: UserTiersConfig)
    ensures
        tiers.limits("demo"@) == Some(tiers.demo),
        tiers.limits("free"@) == Some(tiers.free),
        tiers.limits("pro"@) == Some(tiers.pro),
        forall|name: Seq<char>|
            name != "demo"@ && name != "free"@ && name != "pro"@ ==> #[trigger] tiers.limits(name)
                is None,
{
    reveal_strlit("demo");
    reveal_strlit("free");
    reveal_strlit("pro");
    assert("demo"@.len() == 4);
    assert("free"@.len() == 4);
    assert("pro"@.len() == 3);
    assert("demo"@[0] != "free"@[0]);
}

} // verus!
