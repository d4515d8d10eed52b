use vstd::prelude::*;
use vstd::string::*;
use crate::keyed::{KeyedMap, LookupKey};
use crate::resources::profile::ResourceProfile;
use crate::resources::adaptation::{AdaptationStrategy, params_view};
use crate::resources::enhancement::{EnhancedFeature, EnhancementManager, builtin_features, available_for};
use crate::resources::system::ResourceSystem;

verus! {

/// Fallback strategy for a resource-intensive feature.
#[derive(Debug)]
pub struct FallbackStrategy {
    /// Name of the fallback strategy
    pub name: String,
    /// Description of the fallback strategy
    pub description: String,
    /// The feature this strategy provides a fallback for
    pub feature: EnhancedFeature,
    /// Resource usage reduction percentage (0-100)
    pub resource_reduction: u8,
    /// Functionality preservation percentage (0-100)
    pub functionality_preservation: u8,
    /// Custom parameters for this strategy
    pub custom_params: KeyedMap<String, String>,
}

/// The mathematical content of a fallback strategy.
pub struct FallbackView {
    pub name: Seq<char>,
    pub description: Seq<char>,
    pub feature: EnhancedFeature,
    pub resource_reduction: u8,
    pub functionality_preservation: u8,
    pub custom_params: Map<(int, Seq<char>), Seq<char>>,
}

impl View for FallbackStrategy {
    type V = FallbackView;

    open spec fn view(&self) -> FallbackView {
        FallbackView {
            name: self.name@,
            description: self.description@,
            feature: self.feature,
            resource_reduction: self.resource_reduction,
            functionality_preservation: self.functionality_preservation,
            custom_params: params_view(&self.custom_params),
        }
    }
}

/// `n` capped at 100.
pub open spec fn cap_percent(n: u8) -> u8 {
    if n <= 100 { n } else { 100 }
}

impl FallbackStrategy {
    pub open spec fn wf(&self) -> bool {
        self.custom_params.wf()
    }

    /// Create a new fallback strategy: 50% resource reduction, 80% functionality preserved.
    pub fn new(feature: EnhancedFeature, name: &str, description: &str) -> (r: Self)
        ensures
            r.wf(),
            r@ == (FallbackView {
                name: name@,
                description: description@,
                feature,
                resource_reduction: 50,
                functionality_preservation: 80,
                custom_params: Map::empty(),
            }),
    {
        let r = FallbackStrategy {
            name: name.to_owned(),
            description: description.to_owned(),
            feature,
            resource_reduction: 50,
            functionality_preservation: 80,
            custom_params: KeyedMap::new(),
        };
        assert(params_view(&r.custom_params) =~= Map::empty());
        r
    }

    /// Set the resource reduction percentage, capped at 100.
    pub fn with_resource_reduction(self, percentage: u8) -> (r: Self)
        requires
            self.wf(),
        ensures
            r.wf(),
            r@ == (FallbackView { resource_reduction: cap_percent(percentage), ..self@ }),
    {
        let mut s = self;
        s.resource_reduction = if percentage <= 100 { percentage } else { 100 };
        s
    }

    /// Set the functionality preservation percentage, capped at 100.
    pub fn with_functionality_preservation(self, percentage: u8) -> (r: Self)
        requires
            self.wf(),
        ensures
            r.wf(),
            r@ == (FallbackView { functionality_preservation: cap_percent(percentage), ..self@ }),
    {
        let mut s = self;
        s.functionality_preservation = if percentage <= 100 { percentage } else { 100 };
        s
    }

    /// Add a custom parameter to the strategy.
    pub fn with_param(self, key: &str, value: &str) -> (r: Self)
        requires
            self.wf(),
        ensures
            r.wf(),
            r@ == (FallbackView { custom_params: self@.custom_params.insert((0int, key@), value@), ..self@ }),
    {
        let mut s = self;
        s.custom_params.insert(key.to_owned(), value.to_owned());
        assert(params_view(&s.custom_params) =~= self@.custom_params.insert((0int, key@), value@));
        s
    }

    /// A copy of the strategy.
    pub fn duplicate(&self) -> (r: Self)
        requires
            self.wf(),
        ensures
            r.wf(),
            r@ == self@,
    {
        FallbackStrategy {
            name: self.name.clone(),
            description: self.description.clone(),
            feature: self.feature.clone(),
            resource_reduction: self.resource_reduction,
            functionality_preservation: self.functionality_preservation,
            custom_params: self.custom_params.duplicate(),
        }
    }
}

/// The views of a list of strategies.
pub open spec fn views_of(v: Seq<FallbackStrategy>) -> Seq<FallbackView> {
    v.map_values(|s: FallbackStrategy| s@)
}

/// How well a strategy suits a profile: the resource reduction on the most
/// constrained profiles, reduction plus preservation on low-end ones, and the
/// preservation elsewhere.
pub open spec fn suitability(s: FallbackView, p: ResourceProfile) -> int {
    match p {
        ResourceProfile::Mobile => s.resource_reduction as int,
        ResourceProfile::LimitedConnectivity => s.resource_reduction as int,
        ResourceProfile::LowEnd => s.resource_reduction + s.functionality_preservation,
        ResourceProfile::BatteryPowered => s.resource_reduction + s.functionality_preservation,
        _ => s.functionality_preservation as int,
    }
}

/// Position `i` holds the last of the most suitable strategies in `seq`.
pub open spec fn is_choice(seq: Seq<FallbackView>, p: ResourceProfile, i: int) -> bool {
    &&& 0 <= i < seq.len()
    &&& forall|j: int| 0 <= j < seq.len() ==> suitability(#[trigger] seq[j], p) <= suitability(seq[i], p)
    &&& forall|j: int| i < j < seq.len() ==> suitability(#[trigger] seq[j], p) < suitability(seq[i], p)
}

fn suitability_of(s: &FallbackStrategy, p: &ResourceProfile) -> (r: u16)
    ensures
        r == suitability(s@, *p),
{
    match p {
        ResourceProfile::Mobile => s.resource_reduction as u16,
        ResourceProfile::LimitedConnectivity => s.resource_reduction as u16,
        ResourceProfile::LowEnd => s.resource_reduction as u16 + s.functionality_preservation as u16,
        ResourceProfile::BatteryPowered => s.resource_reduction as u16 + s.functionality_preservation as u16,
        _ => s.functionality_preservation as u16,
    }
}

/// A strategy as the defaults list it.
pub open spec fn default_view(f: EnhancedFeature, name: Seq<char>, description: Seq<char>, rr: u8, fp: u8,
    params: Map<(int, Seq<char>), Seq<char>>) -> FallbackView {
    FallbackView {
        name,
        description,
        feature: f,
        resource_reduction: rr,
        functionality_preservation: fp,
        custom_params: params,
    }
}

/// The strategies a new manager registers, by feature key, in order.
pub open spec fn default_registry() -> Map<(int, Seq<char>), Seq<FallbackView>> {
    Map::empty()
        .insert((0, Seq::empty()), seq![
            default_view(EnhancedFeature::HighResolutionAssets, "Medium Resolution Assets"@,
                "Use medium resolution textures and images to reduce memory usage"@, 50, 90, Map::empty()),
            default_view(EnhancedFeature::HighResolutionAssets, "Low Resolution Assets"@,
                "Use low resolution textures and images to minimize memory usage"@, 80, 70, Map::empty()),
        ])
        .insert((1, Seq::empty()), seq![
            default_view(EnhancedFeature::AdvancedVisualEffects, "Basic Visual Effects"@,
                "Use simplified visual effects with reduced complexity"@, 60, 85, Map::empty()),
            default_view(EnhancedFeature::AdvancedVisualEffects, "Minimal Visual Effects"@,
                "Use only essential visual effects with minimal resource usage"@, 90, 60, Map::empty()),
        ])
        .insert((2, Seq::empty()), seq![
            default_view(EnhancedFeature::RealTimeUpdates, "Periodic Updates"@,
                "Update data at regular intervals instead of in real-time"@, 70, 85,
                Map::empty().insert((0int, "update_interval_seconds"@), "30"@)),
            default_view(EnhancedFeature::RealTimeUpdates, "Manual Updates"@,
                "Update data only when explicitly requested by the user"@, 95, 50, Map::empty()),
        ])
        .insert((3, Seq::empty()), seq![
            default_view(EnhancedFeature::BackgroundProcessing, "Limited Background Processing"@,
                "Run background tasks with reduced frequency and priority"@, 60, 80,
                Map::empty().insert((0int, "max_concurrent_tasks"@), "1"@).insert((0int, "task_interval_seconds"@), "60"@)),
        ])
        .insert((4, Seq::empty()), seq![
            default_view(EnhancedFeature::PredictivePrefetching, "Basic Prefetching"@,
                "Prefetch only the most commonly accessed data"@, 70, 75,
                Map::empty().insert((0int, "prefetch_limit"@), "10"@)),
        ])
        .insert((5, Seq::empty()), seq![
            default_view(EnhancedFeature::AdvancedAnalytics, "Basic Analytics"@,
                "Collect and process only essential analytics data"@, 80, 70, Map::empty()),
        ])
        .insert((6, Seq::empty()), seq![
            default_view(EnhancedFeature::MultiThreadedOperations, "Limited Threading"@,
                "Use a reduced number of threads for parallel operations"@, 50, 85,
                Map::empty().insert((0int, "max_threads"@), "2"@)),
            default_view(EnhancedFeature::MultiThreadedOperations, "Single-Threaded Operations"@,
                "Use single-threaded operations to minimize resource usage"@, 90, 60, Map::empty()),
        ])
        .insert((7, Seq::empty()), seq![
            default_view(EnhancedFeature::HardwareAcceleration, "Selective Hardware Acceleration"@,
                "Use hardware acceleration only for critical operations"@, 60, 80, Map::empty()),
            default_view(EnhancedFeature::HardwareAcceleration, "Software Rendering"@,
                "Use software rendering instead of hardware acceleration"@, 100, 50, Map::empty()),
        ])
}

/// What updating the fallbacks for `p` leaves under key `k`, for the
/// built-in features with tags below `n`; other keys keep what they had.
pub open spec fn settled_at(
    before: Map<(int, Seq<char>), FallbackView>,
    after: Map<(int, Seq<char>), FallbackView>,
    reg: Map<(int, Seq<char>), Seq<FallbackView>>,
    p: ResourceProfile,
    n: int,
    k: (int, Seq<char>),
) -> bool {
    if 0 <= k.0 < n && k.0 < 8 && k.1 == Seq::<char>::empty() {
        if available_for(builtin_features()[k.0], p) {
            !after.dom().contains(k)
        } else if registered_under(reg, k).len() == 0 {
            after.dom().contains(k) == before.dom().contains(k) && (after.dom().contains(k) ==> after[k] == before[k])
        } else {
            after.dom().contains(k) && exists|i: int| is_choice(registered_under(reg, k), p, i)
                && after[k] == #[trigger] registered_under(reg, k)[i]
        }
    } else {
        after.dom().contains(k) == before.dom().contains(k) && (after.dom().contains(k) ==> after[k] == before[k])
    }
}

/// Every key is settled as `settled_at` says.
pub open spec fn fallbacks_settled(
    before: Map<(int, Seq<char>), FallbackView>,
    after: Map<(int, Seq<char>), FallbackView>,
    reg: Map<(int, Seq<char>), Seq<FallbackView>>,
    p: ResourceProfile,
    n: int,
) -> bool {
    forall|k: (int, Seq<char>)| #[trigger] settled_at(before, after, reg, p, n, k)
}

/// Fallback manager for managing fallback strategies.
#[derive(Debug)]
pub struct FallbackManager {
    /// Available fallback strategies
    strategies: KeyedMap<EnhancedFeature, Vec<FallbackStrategy>>,
    /// Currently active fallback strategies
    active_strategies: KeyedMap<EnhancedFeature, FallbackStrategy>,
}

/// The strategies registered under key `k` of `m`, or none.
pub open spec fn registered_under(m: Map<(int, Seq<char>), Seq<FallbackView>>, k: (int, Seq<char>)) -> Seq<FallbackView> {
    if m.dom().contains(k) { m[k] } else { Seq::empty() }
}

impl FallbackManager {
    pub closed spec fn wf(&self) -> bool {
        &&& self.strategies.wf()
        &&& self.active_strategies.wf()
        &&& forall|k| #[trigger] self.strategies.view_map().dom().contains(k) ==>
            forall|i: int| 0 <= i < self.strategies.view_map()[k]@.len() ==> (#[trigger] self.strategies.view_map()[k]@[i]).wf()
        &&& forall|k| #[trigger] self.active_strategies.view_map().dom().contains(k) ==> self.active_strategies.view_map()[k].wf()
    }

    /// The registered strategies of each feature, by key, in registration order.
    pub closed spec fn registry(&self) -> Map<(int, Seq<char>), Seq<FallbackView>> {
        self.strategies.view_map().map_values(|v: Vec<FallbackStrategy>| views_of(v@))
    }

    /// The active strategy of each feature, by key.
    pub closed spec fn active(&self) -> Map<(int, Seq<char>), FallbackView> {
        self.active_strategies.view_map().map_values(|s: FallbackStrategy| s@)
    }

    /// Register a fallback strategy after those of its feature.
    pub fn register_strategy(&mut self, strategy: FallbackStrategy)
        requires
            old(self).wf(),
            strategy.wf(),
        ensures
            final(self).wf(),
            final(self).active() == old(self).active(),
            final(self).registry() == old(self).registry().insert(
                strategy.feature.lookup_key(),
                registered_under(old(self).registry(), strategy.feature.lookup_key()).push(strategy@),
            ),
    {
        let ghost k = strategy.feature.lookup_key();
        let ghost sv = strategy@;
        let ghost old_reg = self.registry();
        let feature = strategy.feature.clone();
        let mut list = match self.strategies.remove(&feature) {
            Some(v) => v,
            None => Vec::new(),
        };
        let ghost before = views_of(list@);
        assert(before =~= registered_under(old_reg, k));
        let ghost mid = self.strategies.view_map();
        list.push(strategy);
        assert(views_of(list@) =~= before.push(sv));
        self.strategies.insert(feature, list);
        assert forall|kk| #[trigger] self.strategies.view_map().dom().contains(kk) implies
            forall|i: int| 0 <= i < self.strategies.view_map()[kk]@.len() ==> (#[trigger] self.strategies.view_map()[kk]@[i]).wf() by {
            if kk != k {
                assert(mid.dom().contains(kk));
            }
        }
        assert(self.registry() =~= old_reg.insert(k, before.push(sv)));
    }

    /// Get all fallback strategies for a feature.
    pub fn get_strategies_for_feature(&self, feature: EnhancedFeature) -> (r: Vec<FallbackStrategy>)
        requires
            self.wf(),
        ensures
            views_of(r@) == registered_under(self.registry(), feature.lookup_key()),
            forall|i: int| 0 <= i < r@.len() ==> (#[trigger] r@[i]).wf(),
    {
        let mut out: Vec<FallbackStrategy> = Vec::new();
        match self.strategies.get(&feature) {
            Some(list) => {
                let mut i: usize = 0;
                while i < list.len()
                    invariant
                        i <= list@.len(),
                        forall|j: int| 0 <= j < list@.len() ==> (#[trigger] list@[j]).wf(),
                        out@.len() == i,
                        forall|j: int| 0 <= j < i ==> (#[trigger] out@[j])@ == list@[j]@,
                        forall|j: int| 0 <= j < out@.len() ==> (#[trigger] out@[j]).wf(),
                    decreases list@.len() - i,
                {
                    let s = list[i].duplicate();
                    out.push(s);
                    i = i + 1;
                }
                assert(views_of(out@) =~= views_of(list@));
                out
            },
            None => {
                assert(views_of(out@) =~= Seq::empty());
                out
            },
        }
    }

    /// Get the active fallback strategy for a feature.
    pub fn get_active_strategy(&self, feature: EnhancedFeature) -> (r: Option<&FallbackStrategy>)
        requires
            self.wf(),
        ensures
            match r {
                Some(s) => self.active().dom().contains(feature.lookup_key()) && s@ == self.active()[feature.lookup_key()],
                None => !self.active().dom().contains(feature.lookup_key()),
            },
    {
        self.active_strategies.get(&feature)
    }

    /// Activate the most appropriate fallback strategy for a feature: the last
    /// of the most suitable strategies for `profile`. Nothing changes when the
    /// feature has no strategies.
    pub fn activate_fallback(&mut self, feature: EnhancedFeature, profile: ResourceProfile)
        requires
            old(self).wf(),
        ensures
            final(self).wf(),
            final(self).registry() == old(self).registry(),
            registered_under(old(self).registry(), feature.lookup_key()).len() == 0
                ==> final(self).active() == old(self).active(),
            registered_under(old(self).registry(), feature.lookup_key()).len() > 0 ==> exists|i: int|
                is_choice(registered_under(old(self).registry(), feature.lookup_key()), profile, i)
                && final(self).active() == old(self).active().insert(
                    feature.lookup_key(),
                    registered_under(old(self).registry(), feature.lookup_key())[i],
                ),
    {
        let ghost k = feature.lookup_key();
        let ghost seq = registered_under(self.registry(), k);
        let chosen = match self.strategies.get(&feature) {
            Some(list) => {
                assert(views_of(list@) == seq);
                if list.len() == 0 {
                    None
                } else {
                    let mut best: usize = 0;
                    let mut best_score = suitability_of(&list[0], &profile);
                    let mut i: usize = 1;
                    while i < list.len()
                        invariant
                            views_of(list@) == seq,
                            1 <= i <= list@.len(),
                            best < i,
                            best_score == suitability(seq[best as int], profile),
                            forall|j: int| 0 <= j < i ==> suitability(#[trigger] seq[j], profile) <= best_score,
                            forall|j: int| best < j < i ==> suitability(#[trigger] seq[j], profile) < best_score,
                        decreases list@.len() - i,
                    {
                        let sc = suitability_of(&list[i], &profile);
                        assert(seq[i as int] == list@[i as int]@);
                        if sc >= best_score {
                            best = i;
                            best_score = sc;
                        }
                        i = i + 1;
                    }
                    assert(is_choice(seq, profile, best as int));
                    Some((best, list[best].duplicate()))
                }
            },
            None => None,
        };
        match chosen {
            Some((best, s)) => {
                let ghost sv = s@;
                let ghost mid = self.active_strategies.view_map();
                self.active_strategies.insert(feature, s);
                assert forall|kk| #[trigger] self.active_strategies.view_map().dom().contains(kk)
                    implies self.active_strategies.view_map()[kk].wf() by {
                    if kk != k {
                        assert(mid.dom().contains(kk));
                    }
                }
                assert(self.active() =~= old(self).active().insert(k, sv));
                assert(is_choice(seq, profile, best as int));
            },
            None => {},
        }
    }

    /// Deactivate the fallback strategy for a feature.
    pub fn deactivate_fallback(&mut self, feature: EnhancedFeature)
        requires
            old(self).wf(),
        ensures
            final(self).wf(),
            final(self).registry() == old(self).registry(),
            final(self).active() == old(self).active().remove(feature.lookup_key()),
    {
        let ghost k = feature.lookup_key();
        let ghost mid = self.active_strategies.view_map();
        let _ = self.active_strategies.remove(&feature);
        assert forall|kk| #[trigger] self.active_strategies.view_map().dom().contains(kk)
            implies self.active_strategies.view_map()[kk].wf() by {
            assert(mid.dom().contains(kk));
        }
        assert(self.active() =~= old(self).active().remove(k));
    }

    /// Create a new fallback manager holding the default strategies and no
    /// active one.
    pub fn new() -> (r: Self)
        ensures
            r.wf(),
            r.registry() == default_registry(),
            r.active() == Map::<(int, Seq<char>), FallbackView>::empty(),
    {
        let mut manager = FallbackManager { strategies: KeyedMap::new(), active_strategies: KeyedMap::new() };
        assert(manager.registry() =~= Map::empty());
        assert(manager.active() =~= Map::empty());
        manager.register_default_strategies();
        manager
    }

    /// Register the default fallback strategies.
    fn register_default_strategies(&mut self)
        requires
            old(self).wf(),
            old(self).registry() == Map::<(int, Seq<char>), Seq<FallbackView>>::empty(),
        ensures
            final(self).wf(),
            final(self).registry() == default_registry(),
            final(self).active() == old(self).active(),
    {
        self.register_strategy(
            FallbackStrategy::new(EnhancedFeature::HighResolutionAssets, "Medium Resolution Assets",
                "Use medium resolution textures and images to reduce memory usage")
                .with_resource_reduction(50).with_functionality_preservation(90),
        );
        self.register_strategy(
            FallbackStrategy::new(EnhancedFeature::HighResolutionAssets, "Low Resolution Assets",
                "Use low resolution textures and images to minimize memory usage")
                .with_resource_reduction(80).with_functionality_preservation(70),
        );
        self.register_strategy(
            FallbackStrategy::new(EnhancedFeature::AdvancedVisualEffects, "Basic Visual Effects",
                "Use simplified visual effects with reduced complexity")
                .with_resource_reduction(60).with_functionality_preservation(85),
        );
        self.register_strategy(
            FallbackStrategy::new(EnhancedFeature::AdvancedVisualEffects, "Minimal Visual Effects",
                "Use only essential visual effects with minimal resource usage")
                .with_resource_reduction(90).with_functionality_preservation(60),
        );
        self.register_strategy(
            FallbackStrategy::new(EnhancedFeature::RealTimeUpdates, "Periodic Updates",
                "Update data at regular intervals instead of in real-time")
                .with_resource_reduction(70).with_functionality_preservation(85)
                .with_param("update_interval_seconds", "30"),
        );
        self.register_strategy(
            FallbackStrategy::new(EnhancedFeature::RealTimeUpdates, "Manual Updates",
                "Update data only when explicitly requested by the user")
                .with_resource_reduction(95).with_functionality_preservation(50),
        );
        self.register_strategy(
            FallbackStrategy::new(EnhancedFeature::BackgroundProcessing, "Limited Background Processing",
                "Run background tasks with reduced frequency and priority")
                .with_resource_reduction(60).with_functionality_preservation(80)
                .with_param("max_concurrent_tasks", "1")
                .with_param("task_interval_seconds", "60"),
        );
        self.register_strategy(
            FallbackStrategy::new(EnhancedFeature::PredictivePrefetching, "Basic Prefetching",
                "Prefetch only the most commonly accessed data")
                .with_resource_reduction(70).with_functionality_preservation(75)
                .with_param("prefetch_limit", "10"),
        );
        self.register_strategy(
            FallbackStrategy::new(EnhancedFeature::AdvancedAnalytics, "Basic Analytics",
                "Collect and process only essential analytics data")
                .with_resource_reduction(80).with_functionality_preservation(70),
        );
        self.register_strategy(
            FallbackStrategy::new(EnhancedFeature::MultiThreadedOperations, "Limited Threading",
                "Use a reduced number of threads for parallel operations")
                .with_resource_reduction(50).with_functionality_preservation(85)
                .with_param("max_threads", "2"),
        );
        self.register_strategy(
            FallbackStrategy::new(EnhancedFeature::MultiThreadedOperations, "Single-Threaded Operations",
                "Use single-threaded operations to minimize resource usage")
                .with_resource_reduction(90).with_functionality_preservation(60),
        );
        self.register_strategy(
            FallbackStrategy::new(EnhancedFeature::HardwareAcceleration, "Selective Hardware Acceleration",
                "Use hardware acceleration only for critical operations")
                .with_resource_reduction(60).with_functionality_preservation(80),
        );
        self.register_strategy(
            FallbackStrategy::new(EnhancedFeature::HardwareAcceleration, "Software Rendering",
                "Use software rendering instead of hardware acceleration")
                .with_resource_reduction(100).with_functionality_preservation(50),
        );
        proof {
            let e = Seq::<char>::empty();
            let r = self.registry();
            let d = default_registry();
            assert(r[(0, e)] =~= d[(0, e)]);
            assert(r[(1, e)] =~= d[(1, e)]);
            assert(r[(2, e)] =~= d[(2, e)]);
            assert(r[(3, e)] =~= d[(3, e)]);
            assert(r[(4, e)] =~= d[(4, e)]);
            assert(r[(5, e)] =~= d[(5, e)]);
            assert(r[(6, e)] =~= d[(6, e)]);
            assert(r[(7, e)] =~= d[(7, e)]);
            assert(r.dom() =~= d.dom());
            assert(r =~= d);
        }
    }

    /// Update fallback strategies based on the current resource profile: a
    /// built-in feature that `profile` affords has no active fallback; one it
    /// does not afford gets the most suitable of its strategies.
    pub fn update_for_profile(&mut self, profile: ResourceProfile, strategy: &AdaptationStrategy)
        requires
            old(self).wf(),
        ensures
            final(self).wf(),
            final(self).registry() == old(self).registry(),
            fallbacks_settled(old(self).active(), final(self).active(), old(self).registry(), profile, 8),
    {
        let features = EnhancementManager::all_features();
        let mut i: usize = 0;
        while i < features.len()
            invariant
                features@ == builtin_features(),
                i <= features@.len(),
                self.wf(),
                self.registry() == old(self).registry(),
                fallbacks_settled(old(self).active(), self.active(), old(self).registry(), profile, i as int),
            decreases features@.len() - i,
        {
            let feature = features[i].clone();
            let ghost before = self.active();
            let ghost reg = self.registry();
            let ghost k = feature.lookup_key();
            assert(k == (i as int, Seq::<char>::empty()));
            if feature.is_available_for(profile.clone()) {
                self.deactivate_fallback(feature);
            } else {
                self.activate_fallback(feature, profile.clone());
            }
            let ghost after = self.active();
            assert forall|kk: (int, Seq<char>)| #[trigger] settled_at(old(self).active(), after, reg, profile, i + 1, kk) by {
                assert(settled_at(old(self).active(), before, reg, profile, i as int, kk));
                if kk != k {
                    assert(after.dom().contains(kk) == before.dom().contains(kk));
                    assert(after.dom().contains(kk) ==> after[kk] == before[kk]);
                }
            }
            i = i + 1;
        }
    }
}

/// Position `i` holds the first strategy of `seq` named `name`.
pub open spec fn first_named(seq: Seq<FallbackView>, name: Seq<char>, i: int) -> bool {
    &&& 0 <= i < seq.len()
    &&& seq[i].name == name
    &&& forall|j: int| 0 <= j < i ==> (#[trigger] seq[j]).name != name
}

/// The system's fallback manager and links are those of `prev` but for the
/// active strategies.
pub open spec fn only_active_changed(sys: &ResourceSystem, prev: &ResourceSystem) -> bool {
    &&& sys.manager == prev.manager
    &&& sys.enhancements == prev.enhancements
    &&& sys.enhancements_follow == prev.enhancements_follow
    &&& sys.fallbacks_follow == prev.fallbacks_follow
    &&& sys.fallbacks.registry() == prev.fallbacks.registry()
}

/// Link the fallback manager of the system to its profile changes and bring
/// it up to the current profile.
pub fn initialize(system: &mut ResourceSystem)
    requires
        old(system).wf(),
    ensures
        final(system).wf(),
        final(system).manager == old(system).manager,
        final(system).fallbacks_follow,
        final(system).enhancements_follow == old(system).enhancements_follow,
        final(system).enhancements == old(system).enhancements,
        final(system).fallbacks.registry() == old(system).fallbacks.registry(),
        fallbacks_settled(
            old(system).fallbacks.active(),
            final(system).fallbacks.active(),
            old(system).fallbacks.registry(),
            old(system).manager.profile(),
            8,
        ),
{
    system.link_fallbacks();
}

/// Check if a fallback strategy is active for a feature.
pub fn is_fallback_active(system: &ResourceSystem, feature: EnhancedFeature) -> (r: bool)
    requires
        system.wf(),
    ensures
        r == system.fallbacks.active().dom().contains(feature.lookup_key()),
{
    system.fallbacks.get_active_strategy(feature).is_some()
}

/// Get the active fallback strategy for a feature.
pub fn get_active_fallback(system: &ResourceSystem, feature: EnhancedFeature) -> (r: Option<FallbackStrategy>)
    requires
        system.wf(),
    ensures
        match r {
            Some(s) => system.fallbacks.active().dom().contains(feature.lookup_key())
                && s@ == system.fallbacks.active()[feature.lookup_key()] && s.wf(),
            None => !system.fallbacks.active().dom().contains(feature.lookup_key()),
        },
{
    let ghost k = feature.lookup_key();
    match system.fallbacks.active_strategies.get(&feature) {
        Some(s) => Some(s.duplicate()),
        None => None,
    }
}

/// The active strategies under the keys of the first `n` entries of `m`.
pub open spec fn active_prefix(m: KeyedMap<EnhancedFeature, FallbackStrategy>, n: int) -> Map<(int, Seq<char>), FallbackView> {
    Map::new(
        |k: (int, Seq<char>)| exists|j: int| 0 <= j < n && #[trigger] m.entry_seq()[j].0.lookup_key() == k,
        |k: (int, Seq<char>)| m.view_map()[k]@,
    )
}

/// Get all active fallback strategies, by feature.
pub fn get_active_fallbacks(system: &ResourceSystem) -> (r: KeyedMap<EnhancedFeature, FallbackStrategy>)
    requires
        system.wf(),
    ensures
        r.wf(),
        r.view_map().map_values(|s: FallbackStrategy| s@) == system.fallbacks.active(),
{
    let src = &system.fallbacks.active_strategies;
    let mut out: KeyedMap<EnhancedFeature, FallbackStrategy> = KeyedMap::new();
    let mut i: usize = 0;
    assert(out.view_map().map_values(|s: FallbackStrategy| s@) =~= active_prefix(*src, 0));
    while i < src.len()
        invariant
            src.wf(),
            forall|k| #[trigger] src.view_map().dom().contains(k) ==> src.view_map()[k].wf(),
            out.wf(),
            i <= src.entry_seq().len(),
            out.view_map().map_values(|s: FallbackStrategy| s@) == active_prefix(*src, i as int),
        decreases src.entry_seq().len() - i,
    {
        let e = src.entry_at(i);
        proof { src.lemma_entry_in_view(i as int); }
        let ghost k = e.0.lookup_key();
        let ghost before = out.view_map().map_values(|s: FallbackStrategy| s@);
        let d = e.1.duplicate();
        let ghost dv = d@;
        out.insert(e.0.clone(), d);
        assert(out.view_map().map_values(|s: FallbackStrategy| s@) =~= before.insert(k, dv));
        assert(active_prefix(*src, i + 1) =~= active_prefix(*src, i as int).insert(k, dv)) by {
            assert forall|kk| active_prefix(*src, i + 1).dom().contains(kk) implies
                #[trigger] active_prefix(*src, i as int).insert(k, dv).dom().contains(kk) by {
                let j = choose|j: int| 0 <= j < i + 1 && #[trigger] src.entry_seq()[j].0.lookup_key() == kk;
                if j < i {
                    assert(active_prefix(*src, i as int).dom().contains(kk));
                }
            }
            assert(src.entry_seq()[i as int].0.lookup_key() == k);
        }
        i = i + 1;
    }
    assert(active_prefix(*src, i as int) =~= system.fallbacks.active());
    out
}

/// Force activate the strategy named `strategy_name` among those registered
/// for a feature (the first of that name). Returns whether there was one.
pub fn force_activate_fallback(system: &mut ResourceSystem, feature: EnhancedFeature, strategy_name: &str) -> (r: bool)
    requires
        old(system).wf(),
    ensures
        final(system).wf(),
        only_active_changed(&*final(system), &*old(system)),
        ({
            let seq = registered_under(old(system).fallbacks.registry(), feature.lookup_key());
            &&& r == exists|i: int| 0 <= i < seq.len() && (#[trigger] seq[i]).name == strategy_name@
            &&& r ==> exists|i: int| #[trigger] first_named(seq, strategy_name@, i)
                && final(system).fallbacks.active() == old(system).fallbacks.active().insert(feature.lookup_key(), seq[i])
            &&& !r ==> final(system).fallbacks.active() == old(system).fallbacks.active()
        }),
{
    let ghost seq = registered_under(system.fallbacks.registry(), feature.lookup_key());
    let strategies = system.fallbacks.get_strategies_for_feature(feature.clone());
    let name = strategy_name.to_owned();
    let mut i: usize = 0;
    while i < strategies.len()
        invariant
            views_of(strategies@) == seq,
            i <= strategies@.len(),
            name@ == strategy_name@,
            forall|j: int| 0 <= j < i ==> (#[trigger] seq[j]).name != strategy_name@,
        ensures
            i <= strategies@.len(),
            forall|j: int| 0 <= j < i ==> (#[trigger] seq[j]).name != strategy_name@,
            i < strategies@.len() ==> strategies@[i as int].name@ == strategy_name@,
        decreases strategies@.len() - i,
    {
        assert(seq[i as int] == strategies@[i as int]@);
        if strategies[i].name == name {
            break;
        }
        i = i + 1;
    }
    if i < strategies.len() {
        assert(seq[i as int] == strategies@[i as int]@);
        let s = strategies[i].duplicate();
        let ghost k = feature.lookup_key();
        let ghost sv = s@;
        let ghost mid = system.fallbacks.active_strategies.view_map();
        system.fallbacks.active_strategies.insert(feature, s);
        assert forall|kk| #[trigger] system.fallbacks.active_strategies.view_map().dom().contains(kk)
            implies system.fallbacks.active_strategies.view_map()[kk].wf() by {
            if kk != k {
                assert(mid.dom().contains(kk));
            }
        }
        assert(system.fallbacks.active() =~= old(system).fallbacks.active().insert(k, sv));
        assert(first_named(seq, strategy_name@, i as int));
        true
    } else {
        false
    }
}

/// Force deactivate the fallback strategy for a feature.
pub fn force_deactivate_fallback(system: &mut ResourceSystem, feature: EnhancedFeature)
    requires
        old(system).wf(),
    ensures
        final(system).wf(),
        only_active_changed(&*final(system), &*old(system)),
        final(system).fallbacks.active() == old(system).fallbacks.active().remove(feature.lookup_key()),
{
    system.fallbacks.deactivate_fallback(feature);
}

/// Once the fallbacks have followed profile `p`, a built-in feature that is
/// available on `p` has no active fallback, and one that is not, but has
/// registered strategies, has one of them active.
pub proof fn law_fallback_complements_availability(
    before: Map<(int, Seq<char>), FallbackView>,
    after: Map<(int, Seq<char>), FallbackView>,
    reg: Map<(int, Seq<char>), Seq<FallbackView>>,
    p: ResourceProfile,
    i: int,
)
    requires
        fallbacks_settled(before, after, reg, p, 8),
        0 <= i < 8,
    ensures
        ({
            let f = builtin_features()[i];
            let k = f.lookup_key();
            &&& available_for(f, p) ==> !after.dom().contains(k)
            &&& !available_for(f, p) && registered_under(reg, k).len() > 0 ==> after.dom().contains(k)
                && exists|j: int| #[trigger] is_choice(registered_under(reg, k), p, j) && after[k] == registered_under(reg, k)[j]
        }),
{
    let k = builtin_features()[i].lookup_key();
    assert(k == (i, Seq::<char>::empty()));
    assert(settled_at(before, after, reg, p, 8, k));
}

} // verus!
