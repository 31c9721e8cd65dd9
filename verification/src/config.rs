//! The resolved configuration of the service and its defaults. Score
//! multipliers are counted in millionths.

use vstd::prelude::*;
use crate::aggregator::{table_view, UNIT_MULTIPLIER};
use crate::{names_view, SafeSearchLevel};

verus! {

/// The kind of a proxy.
#[derive(Debug, Clone, Copy, PartialEq, Eq)]
pub enum ProxyType {
    Socks5,
    Http,
}

/// A proxy through which every request goes.
#[derive(Debug, Clone, PartialEq, Eq)]
pub struct ProxyConfig {
    pub connection_url: String,
    /// Whether the proxy is said to lead through Tor.
    pub is_tor: bool,
    pub proxy_type: ProxyType,
}

/// The limit on the rate of requests that the service accepts.
#[derive(Debug, Clone, Copy, PartialEq, Eq)]
pub struct RateLimiter {
    pub number_of_requests: usize,
    /// The span of time, in seconds, over which requests are counted.
    pub time_limit: u64,
}

/// The settings of one upstream engine.
#[derive(Debug, Clone, Copy, PartialEq, Eq)]
pub struct EngineConfig {
    pub enabled: bool,
    /// The timeout of a request, in seconds.
    pub timeout: u128,
    /// The score multiplier, in millionths.
    pub score_multiplier: u32,
}

/// The configuration of the service.
#[derive(Debug, Clone)]
pub struct Config {
    /// From 0, the most verbose, to 4.
    pub log_level: u8,
    /// The most threads that the scheduler may use.
    pub threads: usize,
    pub port: u16,
    pub bind_ip: String,
    pub rate_limiter: RateLimiter,
    /// The timeout of a connection to an upstream engine, in seconds.
    pub request_timeout: u16,
    /// The user agents among which requests rotate.
    pub user_agents: Vec<String>,
    /// 0 for no filtering, 1 for the engines' own, anything above for the
    /// strictest.
    pub safe_search_level: u8,
    pub redis_url: Option<String>,
    /// How long results stay cached, in seconds.
    pub cache_expiry_time: u64,
    pub proxy: Option<ProxyConfig>,
    /// The upstream engines by name, each with its settings.
    pub upstream_search_engines: Vec<(String, EngineConfig)>,
}

/// The number of CPUs that `num_cpus::get` reports, which is at least 1 and
/// depends on the machine.
#[verifier::external_body]
pub(crate) fn available_cpus() -> (count: usize)
    ensures
        count >= 1,
{
    num_cpus::get()
}

impl Default for EngineConfig {
    fn default() -> (config: EngineConfig)
        ensures
            config == (EngineConfig { enabled: true, timeout: 5, score_multiplier: UNIT_MULTIPLIER }),
    {
        EngineConfig { enabled: true, timeout: 5, score_multiplier: UNIT_MULTIPLIER }
    }
}

impl Default for RateLimiter {
    fn default() -> (limiter: RateLimiter)
        ensures
            limiter == (RateLimiter { number_of_requests: 10, time_limit: 10 }),
    {
        RateLimiter { number_of_requests: 10, time_limit: 10 }
    }
}

/// The names of the entries whose engine is enabled, among the first `count`
/// entries.
pub open spec fn enabled_names(engines: Seq<(String, EngineConfig)>, count: nat) -> Seq<Seq<char>>
    decreases count,
{
    if count == 0 || count > engines.len() {
        Seq::empty()
    } else if engines[count - 1].1.enabled {
        enabled_names(engines, (count - 1) as nat).push(engines[count - 1].0@)
    } else {
        enabled_names(engines, (count - 1) as nat)
    }
}

/// The name and multiplier of each entry.
pub open spec fn multipliers_of(engines: Seq<(String, EngineConfig)>) -> Seq<(Seq<char>, u32)> {
    engines.map_values(|entry: (String, EngineConfig)| (entry.0@, entry.1.score_multiplier))
}

/// The level of filtering that a configured number stands for.
pub open spec fn level_of(level: u8) -> SafeSearchLevel {
    if level == 0 {
        SafeSearchLevel::Off
    } else if level == 1 {
        SafeSearchLevel::Medium
    } else {
        SafeSearchLevel::High
    }
}

impl Default for Config {
    fn default() -> (config: Config)
        ensures
            config.log_level == 0,
            config.threads >= 1,
            config.port == 2000,
            config.bind_ip@ == "0.0.0.0"@,
            config.rate_limiter == (RateLimiter { number_of_requests: 10, time_limit: 10 }),
            config.request_timeout == 5,
            config.user_agents@.len() == 0,
            config.safe_search_level == 1,
            config.redis_url is None,
            config.cache_expiry_time == 0,
            config.proxy is None,
            config.upstream_search_engines@.len() == 2,
            config.upstream_search_engines@[0].0@ == "Bing"@,
            config.upstream_search_engines@[1].0@ == "DuckDuckGo"@,
            config.upstream_search_engines@[0].1 == (EngineConfig {
                enabled: true,
                timeout: 5,
                score_multiplier: UNIT_MULTIPLIER,
            }),
            config.upstream_search_engines@[1].1 == config.upstream_search_engines@[0].1,
    {
        let mut engines: Vec<(String, EngineConfig)> = Vec::new();
        engines.push(("Bing".to_owned(), EngineConfig::default()));
        engines.push(("DuckDuckGo".to_owned(), EngineConfig::default()));
        Config {
            log_level: 0,
            threads: available_cpus(),
            port: 2000,
            bind_ip: "0.0.0.0".to_owned(),
            rate_limiter: RateLimiter::default(),
            request_timeout: 5,
            user_agents: Vec::new(),
            safe_search_level: 1,
            redis_url: None,
            cache_expiry_time: 0,
            upstream_search_engines: engines,
            proxy: None,
        }
    }
}

impl Config {
    /// The names of the enabled engines, in the order of the configuration.
    pub fn enabled_engines(&self) -> (names: Vec<String>)
        ensures
            names_view(names@) == enabled_names(
                self.upstream_search_engines@,
                self.upstream_search_engines@.len(),
            ),
    {
        let mut names: Vec<String> = Vec::new();
        assert(names_view(names@) =~= Seq::empty());
        let mut i: usize = 0;
        while i < self.upstream_search_engines.len()
            invariant
                i <= self.upstream_search_engines.len(),
                names_view(names@) == enabled_names(self.upstream_search_engines@, i as nat),
            decreases self.upstream_search_engines.len() - i,
        {
            let ghost before = names_view(names@);
            if self.upstream_search_engines[i].1.enabled {
                let name = self.upstream_search_engines[i].0.clone();
                names.push(name);
                assert(names_view(names@) =~= before.push(self.upstream_search_engines@[i as int].0@));
            }
            i += 1;
        }
        names
    }

    /// The multiplier table: the name and multiplier of each configured
    /// engine, in the order of the configuration.
    pub fn score_multipliers(&self) -> (table: Vec<(String, u32)>)
        ensures
            table_view(table@) == multipliers_of(self.upstream_search_engines@),
    {
        let mut table: Vec<(String, u32)> = Vec::new();
        let mut i: usize = 0;
        while i < self.upstream_search_engines.len()
            invariant
                i <= self.upstream_search_engines.len(),
                table@.len() == i,
                forall|j: int|
                    0 <= j < i ==> (#[trigger] table@[j]).0@ == self.upstream_search_engines@[j].0@
                        && table@[j].1 == self.upstream_search_engines@[j].1.score_multiplier,
            decreases self.upstream_search_engines.len() - i,
        {
            let name = self.upstream_search_engines[i].0.clone();
            table.push((name, self.upstream_search_engines[i].1.score_multiplier));
            i += 1;
        }
        assert(table_view(table@) =~= multipliers_of(self.upstream_search_engines@));
        table
    }

    /// The default level of filtering.
    pub fn default_safe_search_level(&self) -> (level: SafeSearchLevel)
        ensures
            level == level_of(self.safe_search_level),
    {
        if self.safe_search_level == 0 {
            SafeSearchLevel::Off
        } else if self.safe_search_level == 1 {
            SafeSearchLevel::Medium
        } else {
            SafeSearchLevel::High
        }
    }
}

} // verus!
