use vstd::prelude::*;
use vstd::string::*;
use crate::keyed::{KeyedMap, LookupKey};
use crate::resources::profile::ResourceProfile;
use crate::resources::system::ResourceSystem;

verus! {

/// Enhanced feature that can be enabled on capable devices.
#[derive(Debug, PartialEq, Eq, Hash)]
pub enum EnhancedFeature {
    /// High-resolution textures and images
    HighResolutionAssets,
    /// Advanced visual effects (shadows, reflections, etc.)
    AdvancedVisualEffects,
    /// Real-time data updates
    RealTimeUpdates,
    /// Background data processing
    BackgroundProcessing,
    /// Predictive prefetching of data
    PredictivePrefetching,
    /// Advanced analytics and metrics
    AdvancedAnalytics,
    /// Multi-threaded operations
    MultiThreadedOperations,
    /// Hardware acceleration
    HardwareAcceleration,
    /// Custom enhanced feature
    Custom(String),
}

impl Clone for EnhancedFeature {
    fn clone(&self) -> (r: Self)
        ensures
            r == *self,
    {
        match self {
            EnhancedFeature::HighResolutionAssets => EnhancedFeature::HighResolutionAssets,
            EnhancedFeature::AdvancedVisualEffects => EnhancedFeature::AdvancedVisualEffects,
            EnhancedFeature::RealTimeUpdates => EnhancedFeature::RealTimeUpdates,
            EnhancedFeature::BackgroundProcessing => EnhancedFeature::BackgroundProcessing,
            EnhancedFeature::PredictivePrefetching => EnhancedFeature::PredictivePrefetching,
            EnhancedFeature::AdvancedAnalytics => EnhancedFeature::AdvancedAnalytics,
            EnhancedFeature::MultiThreadedOperations => EnhancedFeature::MultiThreadedOperations,
            EnhancedFeature::HardwareAcceleration => EnhancedFeature::HardwareAcceleration,
            EnhancedFeature::Custom(name) => EnhancedFeature::Custom(name.clone()),
        }
    }
}

impl LookupKey for EnhancedFeature {
    open spec fn lookup_key(&self) -> (int, Seq<char>) {
        match self {
            EnhancedFeature::HighResolutionAssets => (0, Seq::empty()),
            EnhancedFeature::AdvancedVisualEffects => (1, Seq::empty()),
            EnhancedFeature::RealTimeUpdates => (2, Seq::empty()),
            EnhancedFeature::BackgroundProcessing => (3, Seq::empty()),
            EnhancedFeature::PredictivePrefetching => (4, Seq::empty()),
            EnhancedFeature::AdvancedAnalytics => (5, Seq::empty()),
            EnhancedFeature::MultiThreadedOperations => (6, Seq::empty()),
            EnhancedFeature::HardwareAcceleration => (7, Seq::empty()),
            EnhancedFeature::Custom(name) => (8, name@),
        }
    }

    fn same_key(&self, other: &Self) -> (r: bool) {
        match (self, other) {
            (EnhancedFeature::HighResolutionAssets, EnhancedFeature::HighResolutionAssets) => true,
            (EnhancedFeature::AdvancedVisualEffects, EnhancedFeature::AdvancedVisualEffects) => true,
            (EnhancedFeature::RealTimeUpdates, EnhancedFeature::RealTimeUpdates) => true,
            (EnhancedFeature::BackgroundProcessing, EnhancedFeature::BackgroundProcessing) => true,
            (EnhancedFeature::PredictivePrefetching, EnhancedFeature::PredictivePrefetching) => true,
            (EnhancedFeature::AdvancedAnalytics, EnhancedFeature::AdvancedAnalytics) => true,
            (EnhancedFeature::MultiThreadedOperations, EnhancedFeature::MultiThreadedOperations) => true,
            (EnhancedFeature::HardwareAcceleration, EnhancedFeature::HardwareAcceleration) => true,
            (EnhancedFeature::Custom(a), EnhancedFeature::Custom(b)) => *a == *b,
            _ => false,
        }
    }
}

/// The human-readable name of a feature.
pub open spec fn feature_name(f: EnhancedFeature) -> Seq<char> {
    match f {
        EnhancedFeature::HighResolutionAssets => "High-Resolution Assets"@,
        EnhancedFeature::AdvancedVisualEffects => "Advanced Visual Effects"@,
        EnhancedFeature::RealTimeUpdates => "Real-Time Updates"@,
        EnhancedFeature::BackgroundProcessing => "Background Processing"@,
        EnhancedFeature::PredictivePrefetching => "Predictive Prefetching"@,
        EnhancedFeature::AdvancedAnalytics => "Advanced Analytics"@,
        EnhancedFeature::MultiThreadedOperations => "Multi-Threaded Operations"@,
        EnhancedFeature::HardwareAcceleration => "Hardware Acceleration"@,
        EnhancedFeature::Custom(name) => "Custom: "@ + name@,
    }
}

/// The least profile a feature needs.
pub open spec fn minimum_profile_of(f: EnhancedFeature) -> ResourceProfile {
    match f {
        EnhancedFeature::HighResolutionAssets => ResourceProfile::MidRange,
        EnhancedFeature::AdvancedVisualEffects => ResourceProfile::HighEnd,
        EnhancedFeature::RealTimeUpdates => ResourceProfile::MidRange,
        EnhancedFeature::BackgroundProcessing => ResourceProfile::LowEnd,
        EnhancedFeature::PredictivePrefetching => ResourceProfile::MidRange,
        EnhancedFeature::AdvancedAnalytics => ResourceProfile::MidRange,
        EnhancedFeature::MultiThreadedOperations => ResourceProfile::MidRange,
        EnhancedFeature::HardwareAcceleration => ResourceProfile::MidRange,
        EnhancedFeature::Custom(_) => ResourceProfile::HighEnd,
    }
}

/// The capability rank of a profile, from lowest (0) to highest (3).
pub open spec fn profile_rank(p: ResourceProfile) -> int {
    match p {
        ResourceProfile::Mobile => 0,
        ResourceProfile::LowEnd => 1,
        ResourceProfile::BatteryPowered => 1,
        ResourceProfile::LimitedConnectivity => 1,
        ResourceProfile::MidRange => 2,
        ResourceProfile::HighEnd => 3,
        ResourceProfile::Custom(_) => 2,
    }
}

/// Whether a feature is available on a profile.
pub open spec fn available_for(f: EnhancedFeature, p: ResourceProfile) -> bool {
    profile_rank(p) >= profile_rank(minimum_profile_of(f))
}

/// Whether each built-in feature is available on `p`, by key.
pub open spec fn availability(p: ResourceProfile) -> Map<(int, Seq<char>), bool> {
    Map::new(
        |k: (int, Seq<char>)| 0 <= k.0 < 8 && k.1 == Seq::<char>::empty(),
        |k: (int, Seq<char>)| available_for(builtin_features()[k.0], p),
    )
}

/// The built-in features, in the order in which the manager knows them.
pub open spec fn builtin_features() -> Seq<EnhancedFeature> {
    seq![
        EnhancedFeature::HighResolutionAssets,
        EnhancedFeature::AdvancedVisualEffects,
        EnhancedFeature::RealTimeUpdates,
        EnhancedFeature::BackgroundProcessing,
        EnhancedFeature::PredictivePrefetching,
        EnhancedFeature::AdvancedAnalytics,
        EnhancedFeature::MultiThreadedOperations,
        EnhancedFeature::HardwareAcceleration,
    ]
}

fn rank_of(p: &ResourceProfile) -> (r: u8)
    ensures
        r == profile_rank(*p),
{
    match p {
        ResourceProfile::Mobile => 0,
        ResourceProfile::LowEnd => 1,
        ResourceProfile::BatteryPowered => 1,
        ResourceProfile::LimitedConnectivity => 1,
        ResourceProfile::MidRange => 2,
        ResourceProfile::HighEnd => 3,
        ResourceProfile::Custom(_) => 2,
    }
}

impl EnhancedFeature {
    /// Get a human-readable name for the feature.
    pub fn name(&self) -> (r: String)
        ensures
            r@ == feature_name(*self),
    {
        match self {
            EnhancedFeature::HighResolutionAssets => "High-Resolution Assets".to_owned(),
            EnhancedFeature::AdvancedVisualEffects => "Advanced Visual Effects".to_owned(),
            EnhancedFeature::RealTimeUpdates => "Real-Time Updates".to_owned(),
            EnhancedFeature::BackgroundProcessing => "Background Processing".to_owned(),
            EnhancedFeature::PredictivePrefetching => "Predictive Prefetching".to_owned(),
            EnhancedFeature::AdvancedAnalytics => "Advanced Analytics".to_owned(),
            EnhancedFeature::MultiThreadedOperations => "Multi-Threaded Operations".to_owned(),
            EnhancedFeature::HardwareAcceleration => "Hardware Acceleration".to_owned(),
            EnhancedFeature::Custom(name) => {
                let mut s = "Custom: ".to_owned();
                s.append(name.as_str());
                s
            },
        }
    }

    /// Get the minimum resource profile required for this feature.
    pub fn minimum_profile(&self) -> (r: ResourceProfile)
        ensures
            r == minimum_profile_of(*self),
    {
        match self {
            EnhancedFeature::HighResolutionAssets => ResourceProfile::MidRange,
            EnhancedFeature::AdvancedVisualEffects => ResourceProfile::HighEnd,
            EnhancedFeature::RealTimeUpdates => ResourceProfile::MidRange,
            EnhancedFeature::BackgroundProcessing => ResourceProfile::LowEnd,
            EnhancedFeature::PredictivePrefetching => ResourceProfile::MidRange,
            EnhancedFeature::AdvancedAnalytics => ResourceProfile::MidRange,
            EnhancedFeature::MultiThreadedOperations => ResourceProfile::MidRange,
            EnhancedFeature::HardwareAcceleration => ResourceProfile::MidRange,
            EnhancedFeature::Custom(_) => ResourceProfile::HighEnd,
        }
    }

    /// Check if this feature is available for a given resource profile.
    pub fn is_available_for(&self, profile: ResourceProfile) -> (r: bool)
        ensures
            r == available_for(*self, profile),
    {
        let profile_rank = rank_of(&profile);
        let min_profile_rank = rank_of(&self.minimum_profile());
        profile_rank >= min_profile_rank
    }
}

/// Progressive enhancement manager.
#[derive(Debug)]
pub struct EnhancementManager {
    /// Enabled enhanced features
    enabled_features: KeyedMap<EnhancedFeature, bool>,
    /// Feature configuration parameters
    feature_params: KeyedMap<EnhancedFeature, KeyedMap<String, String>>,
}

impl EnhancementManager {
    pub closed spec fn wf(&self) -> bool {
        &&& self.enabled_features.wf()
        &&& self.feature_params.wf()
        &&& forall|k| #[trigger] self.feature_params.view_map().dom().contains(k)
            ==> self.feature_params.view_map()[k].wf()
    }

    /// Whether each feature is enabled, by key.
    pub closed spec fn enabled(&self) -> Map<(int, Seq<char>), bool> {
        self.enabled_features.view_map()
    }

    /// Each feature's parameters, by key.
    pub closed spec fn params(&self) -> Map<(int, Seq<char>), Map<(int, Seq<char>), Seq<char>>> {
        self.feature_params.view_map().map_values(|m: KeyedMap<String, String>| m.view_map().map_values(|v: String| v@))
    }

    /// Whether a feature counts as enabled: an entry that says so.
    pub open spec fn spec_enabled(&self, f: EnhancedFeature) -> bool {
        self.enabled().dom().contains(f.lookup_key()) && self.enabled()[f.lookup_key()]
    }

    /// Create a new enhancement manager with every built-in feature disabled.
    pub fn new() -> (r: Self)
        ensures
            r.wf(),
            r.params() == Map::<(int, Seq<char>), Map<(int, Seq<char>), Seq<char>>>::empty(),
            r.enabled() == Map::new(
                |k: (int, Seq<char>)| 0 <= k.0 < 8 && k.1 == Seq::<char>::empty(),
                |k: (int, Seq<char>)| false,
            ),
    {
        let mut enabled_features: KeyedMap<EnhancedFeature, bool> = KeyedMap::new();
        let features = Self::all_features();
        let mut i: usize = 0;
        while i < features.len()
            invariant
                features@ == builtin_features(),
                i <= features@.len(),
                enabled_features.wf(),
                enabled_features.view_map() == Map::new(
                    |k: (int, Seq<char>)| 0 <= k.0 < i && k.1 == Seq::<char>::empty(),
                    |k: (int, Seq<char>)| false,
                ),
            decreases features@.len() - i,
        {
            let f = features[i].clone();
            let ghost old_map = enabled_features.view_map();
            enabled_features.insert(f, false);
            assert(enabled_features.view_map() =~= Map::new(
                |k: (int, Seq<char>)| 0 <= k.0 < i + 1 && k.1 == Seq::<char>::empty(),
                |k: (int, Seq<char>)| false,
            ));
            i = i + 1;
        }
        let r = EnhancementManager { enabled_features, feature_params: KeyedMap::new() };
        assert(r.params() =~= Map::empty());
        r
    }

    /// Get all available enhanced features.
    pub fn all_features() -> (r: Vec<EnhancedFeature>)
        ensures
            r@ == builtin_features(),
    {
        let r = vec![
            EnhancedFeature::HighResolutionAssets,
            EnhancedFeature::AdvancedVisualEffects,
            EnhancedFeature::RealTimeUpdates,
            EnhancedFeature::BackgroundProcessing,
            EnhancedFeature::PredictivePrefetching,
            EnhancedFeature::AdvancedAnalytics,
            EnhancedFeature::MultiThreadedOperations,
            EnhancedFeature::HardwareAcceleration,
        ];
        assert(r@ == builtin_features());
        r
    }

    /// Check if a feature is enabled.
    pub fn is_feature_enabled(&self, feature: EnhancedFeature) -> (r: bool)
        requires
            self.wf(),
        ensures
            r == self.spec_enabled(feature),
    {
        match self.enabled_features.get(&feature) {
            Some(b) => *b,
            None => false,
        }
    }

    /// Enable a feature.
    pub fn enable_feature(&mut self, feature: EnhancedFeature)
        requires
            old(self).wf(),
        ensures
            final(self).wf(),
            final(self).enabled() == old(self).enabled().insert(feature.lookup_key(), true),
            final(self).params() == old(self).params(),
    {
        self.enabled_features.insert(feature, true);
    }

    /// Disable a feature.
    pub fn disable_feature(&mut self, feature: EnhancedFeature)
        requires
            old(self).wf(),
        ensures
            final(self).wf(),
            final(self).enabled() == old(self).enabled().insert(feature.lookup_key(), false),
            final(self).params() == old(self).params(),
    {
        self.enabled_features.insert(feature, false);
    }

    /// Set a feature parameter.
    pub fn set_feature_param(&mut self, feature: EnhancedFeature, key: &str, value: &str)
        requires
            old(self).wf(),
        ensures
            final(self).wf(),
            final(self).enabled() == old(self).enabled(),
            final(self).params() == old(self).params().insert(
                feature.lookup_key(),
                if old(self).params().dom().contains(feature.lookup_key()) {
                    old(self).params()[feature.lookup_key()].insert((0int, key@), value@)
                } else {
                    Map::empty().insert((0int, key@), value@)
                },
            ),
    {
        let ghost fk = feature.lookup_key();
        let ghost old_params = self.params();
        let mut params = match self.feature_params.remove(&feature) {
            Some(p) => p,
            None => KeyedMap::new(),
        };
        let ghost before = params.view_map().map_values(|v: String| v@);
        params.insert(key.to_owned(), value.to_owned());
        assert(params.view_map().map_values(|v: String| v@) =~= before.insert((0int, key@), value@));
        let ghost pv = params.view_map().map_values(|v: String| v@);
        let ghost mid = self.feature_params.view_map();
        self.feature_params.insert(feature, params);
        assert forall|k| #[trigger] self.feature_params.view_map().dom().contains(k)
            implies self.feature_params.view_map()[k].wf() by {
            if k != fk {
                assert(mid.dom().contains(k));
            }
        }
        proof {
            if old_params.dom().contains(fk) {
                assert(before =~= old_params[fk]);
            } else {
                assert(before =~= Map::empty());
            }
        }
        assert(self.params() =~= old_params.insert(fk, pv));
    }

    /// Get a feature parameter.
    pub fn get_feature_param(&self, feature: EnhancedFeature, key: &str) -> (r: Option<&String>)
        requires
            self.wf(),
        ensures
            match r {
                Some(v) => self.params().dom().contains(feature.lookup_key())
                    && self.params()[feature.lookup_key()].dom().contains((0int, key@))
                    && v@ == self.params()[feature.lookup_key()][(0int, key@)],
                None => !(self.params().dom().contains(feature.lookup_key())
                    && self.params()[feature.lookup_key()].dom().contains((0int, key@))),
            },
    {
        match self.feature_params.get(&feature) {
            Some(params) => {
                let k = key.to_owned();
                params.get(&k)
            },
            None => None,
        }
    }

    /// Update enabled features based on the current resource profile: each
    /// built-in feature is enabled exactly when it is available for `profile`.
    pub fn update_for_profile(&mut self, profile: ResourceProfile)
        requires
            old(self).wf(),
        ensures
            final(self).wf(),
            final(self).params() == old(self).params(),
            final(self).enabled() == old(self).enabled().union_prefer_right(availability(profile)),
    {
        let features = Self::all_features();
        let mut i: usize = 0;
        while i < features.len()
            invariant
                features@ == builtin_features(),
                i <= features@.len(),
                self.wf(),
                self.params() == old(self).params(),
                self.enabled() == old(self).enabled().union_prefer_right(
                    Map::new(
                        |k: (int, Seq<char>)| 0 <= k.0 < i && k.1 == Seq::<char>::empty(),
                        |k: (int, Seq<char>)| available_for(builtin_features()[k.0], profile),
                    ),
                ),
            decreases features@.len() - i,
        {
            let feature = features[i].clone();
            let available = feature.is_available_for(profile.clone());
            if available {
                self.enable_feature(feature);
            } else {
                self.disable_feature(feature);
            }
            assert(self.enabled() =~= old(self).enabled().union_prefer_right(
                Map::new(
                    |k: (int, Seq<char>)| 0 <= k.0 < i + 1 && k.1 == Seq::<char>::empty(),
                    |k: (int, Seq<char>)| available_for(builtin_features()[k.0], profile),
                ),
            ));
            i = i + 1;
        }
        assert(Map::new(
            |k: (int, Seq<char>)| 0 <= k.0 < i && k.1 == Seq::<char>::empty(),
            |k: (int, Seq<char>)| available_for(builtin_features()[k.0], profile),
        ) =~= availability(profile));
    }
}

/// Link the enhancement manager of the system to its profile changes and
/// bring it up to the current profile.
pub fn initialize(system: &mut ResourceSystem)
    requires
        old(system).wf(),
    ensures
        final(system).wf(),
        final(system).manager == old(system).manager,
        final(system).enhancements_follow,
        final(system).fallbacks_follow == old(system).fallbacks_follow,
        final(system).fallbacks == old(system).fallbacks,
        final(system).enhancements.params() == old(system).enhancements.params(),
        final(system).enhancements.enabled() == old(system).enhancements.enabled().union_prefer_right(
            availability(old(system).manager.profile()),
        ),
{
    system.link_enhancements();
}

/// Check if an enhanced feature is enabled in the system.
pub fn is_feature_enabled(system: &ResourceSystem, feature: EnhancedFeature) -> (r: bool)
    requires
        system.wf(),
    ensures
        r == system.enhancements.spec_enabled(feature),
{
    system.enhancements.is_feature_enabled(feature)
}

/// Get all enabled built-in features, in the manager's order.
pub fn get_enabled_features(system: &ResourceSystem) -> (r: Vec<EnhancedFeature>)
    requires
        system.wf(),
    ensures
        r@ == builtin_features().filter(|f: EnhancedFeature| system.enhancements.spec_enabled(f)),
{
    let features = EnhancementManager::all_features();
    let ghost pred = |f: EnhancedFeature| system.enhancements.spec_enabled(f);
    let mut out: Vec<EnhancedFeature> = Vec::new();
    let mut i: usize = 0;
    while i < features.len()
        invariant
            system.wf(),
            features@ == builtin_features(),
            i <= features@.len(),
            pred == (|f: EnhancedFeature| system.enhancements.spec_enabled(f)),
            out@ == features@.take(i as int).filter(pred),
        decreases features@.len() - i,
    {
        let f = features[i].clone();
        assert(features@.take(i + 1).drop_last() =~= features@.take(i as int));
        assert(features@.take(i + 1).last() == f);
        proof { reveal(Seq::filter); }
        if system.enhancements.is_feature_enabled(f.clone()) {
            out.push(f);
        }
        i = i + 1;
    }
    assert(features@.take(features@.len() as int) =~= features@);
    out
}

/// Force enable an enhanced feature (for testing or user preference).
pub fn force_enable_feature(system: &mut ResourceSystem, feature: EnhancedFeature)
    requires
        old(system).wf(),
    ensures
        final(system).wf(),
        final(system).manager == old(system).manager,
        final(system).fallbacks == old(system).fallbacks,
        final(system).enhancements_follow == old(system).enhancements_follow,
        final(system).fallbacks_follow == old(system).fallbacks_follow,
        final(system).enhancements.params() == old(system).enhancements.params(),
        final(system).enhancements.enabled() == old(system).enhancements.enabled().insert(feature.lookup_key(), true),
{
    system.enhancements.enable_feature(feature);
}

/// Force disable an enhanced feature (for testing or user preference).
pub fn force_disable_feature(system: &mut ResourceSystem, feature: EnhancedFeature)
    requires
        old(system).wf(),
    ensures
        final(system).wf(),
        final(system).manager == old(system).manager,
        final(system).fallbacks == old(system).fallbacks,
        final(system).enhancements_follow == old(system).enhancements_follow,
        final(system).fallbacks_follow == old(system).fallbacks_follow,
        final(system).enhancements.params() == old(system).enhancements.params(),
        final(system).enhancements.enabled() == old(system).enhancements.enabled().insert(feature.lookup_key(), false),
{
    system.enhancements.disable_feature(feature);
}

/// After an update for profile `p`, each built-in feature is enabled exactly
/// when it is available on `p`, whatever was enabled before.
pub proof fn law_enabled_follows_profile(before: Map<(int, Seq<char>), bool>, p: ResourceProfile, i: int)
    requires
        0 <= i < 8,
    ensures
        ({
            let after = before.union_prefer_right(availability(p));
            let k = builtin_features()[i].lookup_key();
            after.dom().contains(k) && after[k] == available_for(builtin_features()[i], p)
        }),
{
    let k = builtin_features()[i].lookup_key();
    assert(k == (i, Seq::<char>::empty()));
    assert(availability(p).dom().contains(k));
}

/// Availability grows with capability: a feature available on a profile is
/// available on every profile of at least the same rank.
pub proof fn law_availability_monotone(f: EnhancedFeature, p: ResourceProfile, q: ResourceProfile)
    requires
        available_for(f, p),
        profile_rank(p) <= profile_rank(q),
    ensures
        available_for(f, q),
{
}


/// On a low-end machine, on battery power and with limited connectivity
/// alike, the only built-in feature available is background processing:
/// every feature that needs mid-range resources or more (real-time updates
/// among them) is unavailable there, and the three profiles agree on every
/// feature.
pub proof fn law_constrained_profiles_rank_as_low_end(f: EnhancedFeature)
    ensures
        available_for(f, ResourceProfile::LowEnd) <==> f == EnhancedFeature::BackgroundProcessing,
        available_for(f, ResourceProfile::LimitedConnectivity) <==> f == EnhancedFeature::BackgroundProcessing,
        available_for(f, ResourceProfile::BatteryPowered) <==> f == EnhancedFeature::BackgroundProcessing,
        available_for(f, ResourceProfile::LimitedConnectivity) == available_for(f, ResourceProfile::LowEnd),
        available_for(f, ResourceProfile::BatteryPowered) == available_for(f, ResourceProfile::LowEnd),
        !available_for(f, ResourceProfile::Mobile),
        available_for(f, ResourceProfile::MidRange)
            <==> !(f == EnhancedFeature::AdvancedVisualEffects || f is Custom),
        available_for(f, ResourceProfile::HighEnd),
{
}

} // verus!
