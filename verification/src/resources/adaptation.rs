use vstd::prelude::*;
use vstd::string::*;
use crate::keyed::{KeyedMap, LookupKey};
use crate::time_span::TimeSpan;
use crate::resources::profile::{
    ResourceProfile, profile_name, batch_size_for, cache_size_mb_for, worker_threads_for,
    polling_secs_for, compression_level_for,
};
use crate::resources::detection::{ResourceSnapshot, BatteryState, NetworkConnectivity};
use crate::resources::system::ResourceSystem;

verus! {

/// Adaptation strategy for adjusting application behavior.
#[derive(Debug)]
pub struct AdaptationStrategy {
    /// Name of the strategy
    pub name: String,
    /// Description of the strategy
    pub description: String,
    /// Resource profile this strategy is designed for
    pub profile: ResourceProfile,
    /// Batch size for processing operations
    pub batch_size: usize,
    /// Cache size in megabytes
    pub cache_size_mb: usize,
    /// Number of worker threads
    pub worker_threads: usize,
    /// Polling interval for background operations
    pub polling_interval: TimeSpan,
    /// Compression level (0-9)
    pub compression_level: u32,
    /// Whether to enable background processing
    pub enable_background_processing: bool,
    /// Whether to enable prefetching
    pub enable_prefetching: bool,
    /// Whether to enable caching
    pub enable_caching: bool,
    /// Custom parameters for this strategy
    pub custom_params: KeyedMap<String, String>,
}

/// The mathematical content of an adaptation strategy.
pub struct StrategyView {
    pub name: Seq<char>,
    pub description: Seq<char>,
    pub profile: ResourceProfile,
    pub batch_size: usize,
    pub cache_size_mb: usize,
    pub worker_threads: usize,
    pub polling_interval: TimeSpan,
    pub compression_level: u32,
    pub enable_background_processing: bool,
    pub enable_prefetching: bool,
    pub enable_caching: bool,
    pub custom_params: Map<(int, Seq<char>), Seq<char>>,
}

impl View for AdaptationStrategy {
    type V = StrategyView;

    open spec fn view(&self) -> StrategyView {
        StrategyView {
            name: self.name@,
            description: self.description@,
            profile: self.profile,
            batch_size: self.batch_size,
            cache_size_mb: self.cache_size_mb,
            worker_threads: self.worker_threads,
            polling_interval: self.polling_interval,
            compression_level: self.compression_level,
            enable_background_processing: self.enable_background_processing,
            enable_prefetching: self.enable_prefetching,
            enable_caching: self.enable_caching,
            custom_params: params_view(&self.custom_params),
        }
    }
}

/// The contents of a parameter map, each value taken by its characters.
pub open spec fn params_view(m: &KeyedMap<String, String>) -> Map<(int, Seq<char>), Seq<char>> {
    m.view_map().map_values(|v: String| v@)
}

/// The strategy that `AdaptationStrategy::new` builds for a profile.
pub open spec fn default_strategy(p: ResourceProfile) -> StrategyView {
    StrategyView {
        name: profile_name(p),
        description: "Adaptation strategy for "@ + profile_name(p) + " systems"@,
        profile: p,
        batch_size: batch_size_for(p),
        cache_size_mb: cache_size_mb_for(p),
        worker_threads: worker_threads_for(p),
        polling_interval: TimeSpan { millis: (polling_secs_for(p) * 1000) as u64 },
        compression_level: compression_level_for(p),
        enable_background_processing: true,
        enable_prefetching: true,
        enable_caching: true,
        custom_params: Map::empty(),
    }
}

impl AdaptationStrategy {
    /// Its parameter map is well formed.
    pub open spec fn wf(&self) -> bool {
        self.custom_params.wf()
    }

    /// Create a new adaptation strategy for a resource profile.
    pub fn new(profile: ResourceProfile) -> (r: Self)
        ensures
            r.wf(),
            r@ == default_strategy(profile),
    {
        let name = profile.name();
        let mut description = "Adaptation strategy for ".to_owned();
        description.append(name.as_str());
        description.append(" systems");
        let batch_size = profile.recommended_batch_size();
        let cache_size_mb = profile.recommended_cache_size_mb();
        let worker_threads = profile.recommended_worker_threads();
        let polling_interval = profile.recommended_polling_interval();
        let compression_level = profile.recommended_compression_level();
        let r = AdaptationStrategy {
            name,
            description,
            profile,
            batch_size,
            cache_size_mb,
            worker_threads,
            polling_interval,
            compression_level,
            enable_background_processing: true,
            enable_prefetching: true,
            enable_caching: true,
            custom_params: KeyedMap::new(),
        };
        assert(r@.description == default_strategy(r.profile).description);
        assert(params_view(&r.custom_params) =~= Map::empty());
        assert(r@ == default_strategy(profile));
        r
    }

    /// A copy of the strategy.
    pub fn duplicate(&self) -> (r: Self)
        requires
            self.wf(),
        ensures
            r.wf(),
            r@ == self@,
    {
        AdaptationStrategy {
            name: self.name.clone(),
            description: self.description.clone(),
            profile: self.profile.clone(),
            batch_size: self.batch_size,
            cache_size_mb: self.cache_size_mb,
            worker_threads: self.worker_threads,
            polling_interval: self.polling_interval,
            compression_level: self.compression_level,
            enable_background_processing: self.enable_background_processing,
            enable_prefetching: self.enable_prefetching,
            enable_caching: self.enable_caching,
            custom_params: self.custom_params.duplicate(),
        }
    }

    /// Add a custom parameter to the strategy.
    pub fn with_param(self, key: &str, value: &str) -> (r: Self)
        requires
            self.wf(),
        ensures
            r.wf(),
            r@ == (StrategyView {
                custom_params: self@.custom_params.insert((0int, key@), value@),
                ..self@
            }),
    {
        let mut s = self;
        let k = key.to_owned();
        let v = value.to_owned();
        s.custom_params.insert(k, v);
        assert(params_view(&s.custom_params) =~= self@.custom_params.insert((0int, key@), value@));
        s
    }

    /// Set the batch size.
    pub fn with_batch_size(self, x: usize) -> (r: Self)
        requires
            self.wf(),
        ensures
            r.wf(),
            r@ == (StrategyView { batch_size: x, ..self@ }),
    {
        let mut s = self;
        s.batch_size = x;
        s
    }

    /// Set the cache size.
    pub fn with_cache_size_mb(self, x: usize) -> (r: Self)
        requires
            self.wf(),
        ensures
            r.wf(),
            r@ == (StrategyView { cache_size_mb: x, ..self@ }),
    {
        let mut s = self;
        s.cache_size_mb = x;
        s
    }

    /// Set the number of worker threads.
    pub fn with_worker_threads(self, x: usize) -> (r: Self)
        requires
            self.wf(),
        ensures
            r.wf(),
            r@ == (StrategyView { worker_threads: x, ..self@ }),
    {
        let mut s = self;
        s.worker_threads = x;
        s
    }

    /// Set the polling interval.
    pub fn with_polling_interval(self, x: TimeSpan) -> (r: Self)
        requires
            self.wf(),
        ensures
            r.wf(),
            r@ == (StrategyView { polling_interval: x, ..self@ }),
    {
        let mut s = self;
        s.polling_interval = x;
        s
    }

    /// Set the compression level, capped at 9.
    pub fn with_compression_level(self, x: u32) -> (r: Self)
        requires
            self.wf(),
        ensures
            r.wf(),
            r@ == (StrategyView { compression_level: if x <= 9 { x } else { 9 }, ..self@ }),
    {
        let mut s = self;
        s.compression_level = if x <= 9 { x } else { 9 };
        s
    }

    /// Enable or disable background processing.
    pub fn with_background_processing(self, x: bool) -> (r: Self)
        requires
            self.wf(),
        ensures
            r.wf(),
            r@ == (StrategyView { enable_background_processing: x, ..self@ }),
    {
        let mut s = self;
        s.enable_background_processing = x;
        s
    }

    /// Enable or disable prefetching.
    pub fn with_prefetching(self, x: bool) -> (r: Self)
        requires
            self.wf(),
        ensures
            r.wf(),
            r@ == (StrategyView { enable_prefetching: x, ..self@ }),
    {
        let mut s = self;
        s.enable_prefetching = x;
        s
    }

    /// Enable or disable caching.
    pub fn with_caching(self, x: bool) -> (r: Self)
        requires
            self.wf(),
        ensures
            r.wf(),
            r@ == (StrategyView { enable_caching: x, ..self@ }),
    {
        let mut s = self;
        s.enable_caching = x;
        s
    }
}

/// Milliseconds from `then` to `now`, or 0 when `now` comes first.
pub open spec fn elapsed_since(then: u64, now: u64) -> int {
    if now >= then { now - then } else { 0 }
}

/// 16 GiB, 8 GiB and 4 GiB in bytes.
pub open spec fn gib(n: int) -> int {
    n * 1024 * 1024 * 1024
}

/// The profile that the detected resources call for.
pub open spec fn profile_for(res: ResourceSnapshot) -> ResourceProfile {
    if res.battery is Some && res.battery->0.state == BatteryState::Discharging
        && res.battery->0.percentage_hundredths < 5000 {
        ResourceProfile::BatteryPowered
    } else if res.network.connectivity != NetworkConnectivity::Full {
        ResourceProfile::LimitedConnectivity
    } else if res.logical_cores >= 8 && res.memory.total >= gib(16) {
        ResourceProfile::HighEnd
    } else if res.logical_cores >= 4 && res.memory.total >= gib(8) {
        ResourceProfile::MidRange
    } else if res.logical_cores >= 2 && res.memory.total >= gib(4) {
        ResourceProfile::LowEnd
    } else {
        ResourceProfile::Mobile
    }
}

/// Determine the appropriate resource profile based on system resources.
pub fn determine_profile(resources: &ResourceSnapshot) -> (r: ResourceProfile)
    ensures
        r == profile_for(*resources),
{
    if let Some(battery) = &resources.battery {
        if battery.state == BatteryState::Discharging && battery.percentage_hundredths < 5000 {
            return ResourceProfile::BatteryPowered;
        }
    }
    if resources.network.connectivity != NetworkConnectivity::Full {
        return ResourceProfile::LimitedConnectivity;
    }
    let cores = resources.logical_cores;
    let total = resources.memory.total;
    if cores >= 8 && total >= 16 * 1024 * 1024 * 1024 {
        ResourceProfile::HighEnd
    } else if cores >= 4 && total >= 8 * 1024 * 1024 * 1024 {
        ResourceProfile::MidRange
    } else if cores >= 2 && total >= 4 * 1024 * 1024 * 1024 {
        ResourceProfile::LowEnd
    } else {
        ResourceProfile::Mobile
    }
}

/// Resource manager for adapting application behavior.
#[derive(Debug)]
pub struct ResourceManager {
    /// Current resource profile
    current_profile: ResourceProfile,
    /// Current adaptation strategy
    current_strategy: AdaptationStrategy,
    /// Available adaptation strategies
    strategies: KeyedMap<ResourceProfile, AdaptationStrategy>,
    /// Last resource check time, in milliseconds
    last_check_ms: u64,
    /// Resource check interval
    check_interval: TimeSpan,
}

/// What a profile's registered strategies amount to, each taken by its view.
pub open spec fn strategies_view(m: KeyedMap<ResourceProfile, AdaptationStrategy>) -> Map<(int, Seq<char>), StrategyView> {
    m.view_map().map_values(|s: AdaptationStrategy| s@)
}

/// The strategies a new manager starts with: the default one of each built-in profile.
pub open spec fn initial_strategies() -> Map<(int, Seq<char>), StrategyView> {
    Map::new(
        |k: (int, Seq<char>)| 0 <= k.0 < 6 && k.1 == Seq::<char>::empty(),
        |k: (int, Seq<char>)| default_strategy(builtin_profile(k.0)),
    )
}

/// The built-in profile with tag `t`.
pub open spec fn builtin_profile(t: int) -> ResourceProfile {
    if t == 0 {
        ResourceProfile::HighEnd
    } else if t == 1 {
        ResourceProfile::MidRange
    } else if t == 2 {
        ResourceProfile::LowEnd
    } else if t == 3 {
        ResourceProfile::Mobile
    } else if t == 4 {
        ResourceProfile::BatteryPowered
    } else {
        ResourceProfile::LimitedConnectivity
    }
}

/// The strategy that forcing `p` applies: the registered one, else the default.
pub open spec fn strategy_applied(m: Map<(int, Seq<char>), StrategyView>, p: ResourceProfile) -> StrategyView {
    if m.dom().contains(p.lookup_key()) {
        m[p.lookup_key()]
    } else {
        default_strategy(p)
    }
}

impl ResourceManager {
    /// The manager's parts are well formed.
    pub closed spec fn wf(&self) -> bool {
        &&& self.current_strategy.wf()
        &&& self.strategies.wf()
        &&& forall|k| #[trigger] self.strategies.view_map().dom().contains(k) ==> self.strategies.view_map()[k].wf()
    }

    pub closed spec fn profile(&self) -> ResourceProfile {
        self.current_profile
    }

    pub closed spec fn strategy(&self) -> StrategyView {
        self.current_strategy@
    }

    pub closed spec fn registered(&self) -> Map<(int, Seq<char>), StrategyView> {
        strategies_view(self.strategies)
    }

    pub closed spec fn last_check(&self) -> u64 {
        self.last_check_ms
    }

    pub closed spec fn interval(&self) -> TimeSpan {
        self.check_interval
    }

    fn insert_strategy(&mut self, profile: ResourceProfile, strategy: AdaptationStrategy)
        requires
            old(self).wf(),
            strategy.wf(),
        ensures
            final(self).wf(),
            final(self).registered() == old(self).registered().insert(profile.lookup_key(), strategy@),
            final(self).profile() == old(self).profile(),
            final(self).strategy() == old(self).strategy(),
            final(self).last_check() == old(self).last_check(),
            final(self).interval() == old(self).interval(),
    {
        let ghost k = profile.lookup_key();
        let ghost sv = strategy@;
        self.strategies.insert(profile, strategy);
        assert(strategies_view(self.strategies) =~= strategies_view(old(self).strategies).insert(k, sv));
    }

    /// Create a new resource manager: mid-range profile, a default strategy
    /// for each built-in profile, and a check every minute.
    pub fn new() -> (r: Self)
        ensures
            r.wf(),
            r.profile() == ResourceProfile::MidRange,
            r.strategy() == default_strategy(ResourceProfile::MidRange),
            r.registered() == initial_strategies(),
            r.interval().millis == 60_000,
    {
        let now = crate::clock::now_millis();
        let mut m = ResourceManager {
            current_profile: ResourceProfile::MidRange,
            current_strategy: AdaptationStrategy::new(ResourceProfile::MidRange),
            strategies: KeyedMap::new(),
            last_check_ms: now,
            check_interval: TimeSpan::from_secs(60),
        };
        assert(m.registered() =~= Map::empty());
        m.insert_strategy(ResourceProfile::HighEnd, AdaptationStrategy::new(ResourceProfile::HighEnd));
        m.insert_strategy(ResourceProfile::MidRange, AdaptationStrategy::new(ResourceProfile::MidRange));
        m.insert_strategy(ResourceProfile::LowEnd, AdaptationStrategy::new(ResourceProfile::LowEnd));
        m.insert_strategy(ResourceProfile::Mobile, AdaptationStrategy::new(ResourceProfile::Mobile));
        m.insert_strategy(ResourceProfile::BatteryPowered, AdaptationStrategy::new(ResourceProfile::BatteryPowered));
        m.insert_strategy(ResourceProfile::LimitedConnectivity, AdaptationStrategy::new(ResourceProfile::LimitedConnectivity));
        assert(m.registered() =~= initial_strategies());
        m
    }

    /// Set the resource check interval; the interval starts now.
    pub fn set_check_interval(&mut self, interval: TimeSpan)
        requires
            old(self).wf(),
        ensures
            final(self).wf(),
            final(self).interval() == interval,
            final(self).profile() == old(self).profile(),
            final(self).strategy() == old(self).strategy(),
            final(self).registered() == old(self).registered(),
            exists|t: i64| crate::clock::earliest_time_ms() <= t <= crate::clock::latest_time_ms()
                && final(self).last_check() == #[trigger] crate::clock::millis_since_epoch(t),
    {
        self.last_check_ms = crate::clock::now_millis();
        self.check_interval = interval;
    }

    /// Get the current resource profile.
    pub fn current_profile(&self) -> (r: ResourceProfile)
        ensures
            r == self.profile(),
    {
        self.current_profile.clone()
    }

    /// Get the current adaptation strategy.
    pub fn current_strategy(&self) -> (r: AdaptationStrategy)
        requires
            self.wf(),
        ensures
            r.wf(),
            r@ == self.strategy(),
    {
        self.current_strategy.duplicate()
    }

    /// Register an adaptation strategy for a profile, replacing the one it had.
    pub fn register_strategy(&mut self, profile: ResourceProfile, strategy: AdaptationStrategy)
        requires
            old(self).wf(),
            strategy.wf(),
        ensures
            final(self).wf(),
            final(self).registered() == old(self).registered().insert(profile.lookup_key(), strategy@),
            final(self).profile() == old(self).profile(),
            final(self).strategy() == old(self).strategy(),
            final(self).last_check() == old(self).last_check(),
            final(self).interval() == old(self).interval(),
    {
        self.insert_strategy(profile, strategy);
    }

    /// Get the adaptation strategy registered for a profile.
    pub fn get_strategy(&self, profile: ResourceProfile) -> (r: Option<AdaptationStrategy>)
        requires
            self.wf(),
        ensures
            match r {
                Some(s) => self.registered().dom().contains(profile.lookup_key())
                    && s@ == self.registered()[profile.lookup_key()] && s.wf(),
                None => !self.registered().dom().contains(profile.lookup_key()),
            },
    {
        match self.strategies.get(&profile) {
            Some(s) => Some(s.duplicate()),
            None => None,
        }
    }

    fn apply_profile(&mut self, profile: ResourceProfile) -> (r: AdaptationStrategy)
        requires
            old(self).wf(),
        ensures
            final(self).wf(),
            final(self).profile() == profile,
            final(self).strategy() == strategy_applied(old(self).registered(), profile),
            r@ == final(self).strategy(),
            r.wf(),
            final(self).registered() == old(self).registered(),
            final(self).last_check() == old(self).last_check(),
            final(self).interval() == old(self).interval(),
    {
        let strategy = match self.strategies.get(&profile) {
            Some(s) => s.duplicate(),
            None => AdaptationStrategy::new(profile.clone()),
        };
        self.current_profile = profile;
        self.current_strategy = strategy.duplicate();
        strategy
    }

    /// Force a specific resource profile. Returns the strategy now in force,
    /// which is what the adaptation listeners are to be told of.
    pub fn force_profile(&mut self, profile: ResourceProfile) -> (r: AdaptationStrategy)
        requires
            old(self).wf(),
        ensures
            final(self).wf(),
            final(self).profile() == profile,
            final(self).strategy() == strategy_applied(old(self).registered(), profile),
            r@ == final(self).strategy(),
            r.wf(),
            final(self).registered() == old(self).registered(),
            final(self).last_check() == old(self).last_check(),
            final(self).interval() == old(self).interval(),
    {
        self.apply_profile(profile)
    }

    /// Detect system resources and adapt: when a check interval has passed
    /// since the last check at time `now_ms`, the profile that `resources` call
    /// for is taken on. Returns the new strategy when the profile changed, for
    /// the adaptation listeners.
    /// Whether a check is due at `now_ms`: the check interval has passed
    /// since the last check. When it is not, `detect_and_adapt` changes
    /// nothing, so the resources need not be read.
    pub fn check_due(&self, now_ms: u64) -> (r: bool)
        ensures
            r == !(elapsed_since(self.last_check(), now_ms) < self.interval().millis),
    {
        let elapsed = if now_ms >= self.last_check_ms { now_ms - self.last_check_ms } else { 0 };
        !(elapsed < self.check_interval.millis)
    }

    pub fn detect_and_adapt(&mut self, now_ms: u64, resources: &ResourceSnapshot) -> (r: Option<AdaptationStrategy>)
        requires
            old(self).wf(),
        ensures
            final(self).wf(),
            final(self).registered() == old(self).registered(),
            final(self).interval() == old(self).interval(),
            if elapsed_since(old(self).last_check(), now_ms) < old(self).interval().millis {
                &&& final(self).last_check() == old(self).last_check()
                &&& final(self).profile() == old(self).profile()
                &&& final(self).strategy() == old(self).strategy()
                &&& r is None
            } else {
                &&& final(self).last_check() == now_ms
                &&& if profile_for(*resources).lookup_key() == old(self).profile().lookup_key() {
                    &&& final(self).profile() == old(self).profile()
                    &&& final(self).strategy() == old(self).strategy()
                    &&& r is None
                } else {
                    &&& final(self).profile() == profile_for(*resources)
                    &&& final(self).strategy() == strategy_applied(old(self).registered(), profile_for(*resources))
                    &&& r is Some && r->0@ == final(self).strategy() && r->0.wf()
                }
            },
    {
        let elapsed = if now_ms >= self.last_check_ms { now_ms - self.last_check_ms } else { 0 };
        if elapsed < self.check_interval.millis {
            return None;
        }
        self.last_check_ms = now_ms;
        let profile = determine_profile(resources);
        if profile.same_key(&self.current_profile) {
            None
        } else {
            Some(self.apply_profile(profile))
        }
    }
}

/// Get the current adaptation strategy of the system.
pub fn get_current_strategy(system: &ResourceSystem) -> (r: AdaptationStrategy)
    requires
        system.wf(),
    ensures
        r.wf(),
        r@ == system.manager.strategy(),
{
    system.manager.current_strategy()
}

/// Get the current resource profile of the system.
pub fn get_current_profile(system: &ResourceSystem) -> (r: ResourceProfile)
    ensures
        r == system.manager.profile(),
{
    system.manager.current_profile()
}

/// Force a specific resource profile on the system; the linked managers
/// follow. Returns the strategy now in force, for the adaptation listeners.
pub fn force_profile(system: &mut ResourceSystem, profile: ResourceProfile) -> (r: AdaptationStrategy)
    requires
        old(system).wf(),
    ensures
        final(system).wf(),
        final(system).manager.profile() == profile,
        final(system).manager.strategy() == strategy_applied(old(system).manager.registered(), profile),
        final(system).manager.registered() == old(system).manager.registered(),
        final(system).manager.last_check() == old(system).manager.last_check(),
        final(system).manager.interval() == old(system).manager.interval(),
        r.wf(),
        r@ == final(system).manager.strategy(),
        final(system).followed(&*old(system), profile),
{
    system.force_profile(profile)
}

/// Forcing a profile applies the strategy registered for it last: after
/// `register_strategy(p, s)`, a later `force_profile(p)` puts `s` in force.
pub proof fn law_force_applies_registered(
    registered: Map<(int, Seq<char>), StrategyView>,
    p: ResourceProfile,
    s: StrategyView,
)
    ensures
        strategy_applied(registered.insert(p.lookup_key(), s), p) == s,
{
}

/// Each built-in profile starts out with its default strategy: forcing it on
/// a new manager puts that strategy in force.
pub proof fn law_initial_strategy_is_default(t: int)
    requires
        0 <= t < 6,
    ensures
        strategy_applied(initial_strategies(), builtin_profile(t)) == default_strategy(builtin_profile(t)),
{
    assert(builtin_profile(t).lookup_key() == (t, Seq::<char>::empty()));
    assert(initial_strategies().dom().contains((t, Seq::<char>::empty())));
}


/// The profile detected on a system that is neither on a low, discharging
/// battery nor short of connectivity follows its cores and memory alone:
/// high-end needs at least 8 logical cores and 16 GiB (17179869184 bytes)
/// of memory, mid-range 4 cores and 8 GiB, low-end 2 cores and 4 GiB, and
/// a system below those is mobile. In particular a system with less than
/// 16 GiB is never high-end, whatever its cores.
pub proof fn law_profile_follows_cores_and_memory(res: ResourceSnapshot)
    requires
        !(res.battery is Some && res.battery->0.state == BatteryState::Discharging
            && res.battery->0.percentage_hundredths < 5000),
        res.network.connectivity == NetworkConnectivity::Full,
    ensures
        (profile_for(res) == ResourceProfile::HighEnd)
            <==> (res.logical_cores >= 8 && res.memory.total >= 17179869184),
        (profile_for(res) == ResourceProfile::MidRange)
            <==> (!(res.logical_cores >= 8 && res.memory.total >= 17179869184)
                && res.logical_cores >= 4 && res.memory.total >= 8589934592),
        (profile_for(res) == ResourceProfile::LowEnd)
            <==> (!(res.logical_cores >= 4 && res.memory.total >= 8589934592)
                && res.logical_cores >= 2 && res.memory.total >= 4294967296),
        (profile_for(res) == ResourceProfile::Mobile)
            <==> !(res.logical_cores >= 2 && res.memory.total >= 4294967296),
        res.memory.total < 17179869184 ==> profile_for(res) != ResourceProfile::HighEnd,
{
}

/// A low, discharging battery decides the profile before anything else,
/// and otherwise connectivity short of full does.
pub proof fn law_battery_then_connectivity(res: ResourceSnapshot)
    ensures
        (res.battery is Some && res.battery->0.state == BatteryState::Discharging
            && res.battery->0.percentage_hundredths < 5000) ==> profile_for(res) == ResourceProfile::BatteryPowered,
        !(res.battery is Some && res.battery->0.state == BatteryState::Discharging
            && res.battery->0.percentage_hundredths < 5000) && res.network.connectivity != NetworkConnectivity::Full
            ==> profile_for(res) == ResourceProfile::LimitedConnectivity,
{
}

} // verus!
