use vstd::prelude::*;
use crate::keyed::LookupKey;
use crate::resources::adaptation::{
    default_strategy, elapsed_since, initial_strategies, profile_for, strategy_applied,
    AdaptationStrategy, ResourceManager,
};
use crate::resources::detection::ResourceSnapshot;
use crate::resources::enhancement::{availability, EnhancementManager};
use crate::resources::fallback::{default_registry, fallbacks_settled, FallbackManager, FallbackView};
use crate::resources::profile::ResourceProfile;

verus! {

/// The resource system as one value: the resource manager, the progressive
/// enhancement manager and the fallback manager. Once linked, the enhancement
/// and fallback managers follow every profile the resource manager takes on.
#[derive(Debug)]
pub struct ResourceSystem {
    /// Resource profile and adaptation strategy
    pub manager: ResourceManager,
    /// Enabled enhanced features
    pub enhancements: EnhancementManager,
    /// Fallback strategies
    pub fallbacks: FallbackManager,
    /// Whether the enhancement manager follows profile changes
    pub enhancements_follow: bool,
    /// Whether the fallback manager follows profile changes
    pub fallbacks_follow: bool,
}

/// What the enhancement manager holds after the system took on profile `p`.
pub open spec fn enhancements_after(
    before: Map<(int, Seq<char>), bool>,
    follow: bool,
    p: ResourceProfile,
) -> Map<(int, Seq<char>), bool> {
    if follow { before.union_prefer_right(availability(p)) } else { before }
}

/// What the fallback manager's active strategies may be after the system
/// took on profile `p`.
pub open spec fn fallbacks_after(
    before: Map<(int, Seq<char>), FallbackView>,
    after: Map<(int, Seq<char>), FallbackView>,
    reg: Map<(int, Seq<char>), Seq<FallbackView>>,
    follow: bool,
    p: ResourceProfile,
) -> bool {
    if follow { fallbacks_settled(before, after, reg, p, 8) } else { after == before }
}

impl ResourceSystem {
    /// The three managers are well formed.
    pub open spec fn wf(&self) -> bool {
        &&& self.manager.wf()
        &&& self.enhancements.wf()
        &&& self.fallbacks.wf()
    }

    /// The enhancement and fallback managers now hold what following a change
    /// to profile `p` makes of `prev`'s; the registrations stay.
    pub open spec fn followed(&self, prev: &Self, p: ResourceProfile) -> bool {
        &&& self.enhancements_follow == prev.enhancements_follow
        &&& self.fallbacks_follow == prev.fallbacks_follow
        &&& self.enhancements.params() == prev.enhancements.params()
        &&& self.enhancements.enabled() == enhancements_after(prev.enhancements.enabled(), prev.enhancements_follow, p)
        &&& self.fallbacks.registry() == prev.fallbacks.registry()
        &&& fallbacks_after(prev.fallbacks.active(), self.fallbacks.active(), prev.fallbacks.registry(), prev.fallbacks_follow, p)
    }

    /// A new system: a new resource manager, every feature disabled, the
    /// default fallback strategies registered and none active; nothing linked.
    pub fn new() -> (r: Self)
        ensures
            r.wf(),
            r.manager.profile() == ResourceProfile::MidRange,
            r.manager.strategy() == default_strategy(ResourceProfile::MidRange),
            r.manager.registered() == initial_strategies(),
            r.manager.interval().millis == 60_000,
            r.enhancements.enabled() == Map::new(
                |k: (int, Seq<char>)| 0 <= k.0 < 8 && k.1 == Seq::<char>::empty(),
                |k: (int, Seq<char>)| false,
            ),
            r.enhancements.params() == Map::<(int, Seq<char>), Map<(int, Seq<char>), Seq<char>>>::empty(),
            r.fallbacks.registry() == default_registry(),
            r.fallbacks.active() == Map::<(int, Seq<char>), FallbackView>::empty(),
            !r.enhancements_follow,
            !r.fallbacks_follow,
    {
        ResourceSystem {
            manager: ResourceManager::new(),
            enhancements: EnhancementManager::new(),
            fallbacks: FallbackManager::new(),
            enhancements_follow: false,
            fallbacks_follow: false,
        }
    }

    /// Tells the linked managers of a change to `profile`, whose strategy is
    /// `strategy`.
    fn follow(&mut self, profile: ResourceProfile, strategy: &AdaptationStrategy)
        requires
            old(self).wf(),
        ensures
            final(self).wf(),
            final(self).manager == old(self).manager,
            final(self).followed(&*old(self), profile),
    {
        if self.enhancements_follow {
            self.enhancements.update_for_profile(profile.clone());
        }
        if self.fallbacks_follow {
            self.fallbacks.update_for_profile(profile, strategy);
        }
    }

    /// Link the enhancement manager to profile changes and bring it up to the
    /// current profile.
    pub fn link_enhancements(&mut self)
        requires
            old(self).wf(),
        ensures
            final(self).wf(),
            final(self).manager == old(self).manager,
            final(self).enhancements_follow,
            final(self).fallbacks_follow == old(self).fallbacks_follow,
            final(self).fallbacks == old(self).fallbacks,
            final(self).enhancements.params() == old(self).enhancements.params(),
            final(self).enhancements.enabled() == old(self).enhancements.enabled().union_prefer_right(
                availability(old(self).manager.profile()),
            ),
    {
        self.enhancements_follow = true;
        let profile = self.manager.current_profile();
        self.enhancements.update_for_profile(profile);
    }

    /// Link the fallback manager to profile changes and bring it up to the
    /// current profile.
    pub fn link_fallbacks(&mut self)
        requires
            old(self).wf(),
        ensures
            final(self).wf(),
            final(self).manager == old(self).manager,
            final(self).fallbacks_follow,
            final(self).enhancements_follow == old(self).enhancements_follow,
            final(self).enhancements == old(self).enhancements,
            final(self).fallbacks.registry() == old(self).fallbacks.registry(),
            fallbacks_settled(
                old(self).fallbacks.active(),
                final(self).fallbacks.active(),
                old(self).fallbacks.registry(),
                old(self).manager.profile(),
                8,
            ),
    {
        self.fallbacks_follow = true;
        let profile = self.manager.current_profile();
        let strategy = self.manager.current_strategy();
        self.fallbacks.update_for_profile(profile, &strategy);
    }

    /// Force a specific resource profile and let the linked managers follow.
    /// Returns the strategy now in force.
    pub fn force_profile(&mut self, profile: ResourceProfile) -> (r: AdaptationStrategy)
        requires
            old(self).wf(),
        ensures
            final(self).wf(),
            final(self).manager.profile() == profile,
            final(self).manager.strategy() == strategy_applied(old(self).manager.registered(), profile),
            final(self).manager.registered() == old(self).manager.registered(),
            final(self).manager.last_check() == old(self).manager.last_check(),
            final(self).manager.interval() == old(self).manager.interval(),
            r.wf(),
            r@ == final(self).manager.strategy(),
            final(self).followed(&*old(self), profile),
    {
        let strategy = self.manager.force_profile(profile.clone());
        self.follow(profile, &strategy);
        strategy
    }

    /// Whether a resource check is due at `now_ms`.
    pub fn check_due(&self, now_ms: u64) -> (r: bool)
        ensures
            r == !(elapsed_since(self.manager.last_check(), now_ms) < self.manager.interval().millis),
    {
        self.manager.check_due(now_ms)
    }

    /// Detect resources and adapt as the resource manager does; when the
    /// profile changes, the linked managers follow. Returns the new strategy
    /// when the profile changed.
    pub fn detect_and_adapt(&mut self, now_ms: u64, resources: &ResourceSnapshot) -> (r: Option<AdaptationStrategy>)
        requires
            old(self).wf(),
        ensures
            final(self).wf(),
            final(self).manager.registered() == old(self).manager.registered(),
            final(self).manager.interval() == old(self).manager.interval(),
            match r {
                None => {
                    &&& final(self).manager.profile() == old(self).manager.profile()
                    &&& final(self).manager.strategy() == old(self).manager.strategy()
                    &&& final(self).enhancements == old(self).enhancements
                    &&& final(self).fallbacks == old(self).fallbacks
                    &&& final(self).enhancements_follow == old(self).enhancements_follow
                    &&& final(self).fallbacks_follow == old(self).fallbacks_follow
                },
                Some(s) => {
                    &&& s.wf()
                    &&& s@ == final(self).manager.strategy()
                    &&& final(self).followed(&*old(self), final(self).manager.profile())
                },
            },
            if elapsed_since(old(self).manager.last_check(), now_ms) < old(self).manager.interval().millis {
                &&& final(self).manager.last_check() == old(self).manager.last_check()
                &&& r is None
            } else {
                &&& final(self).manager.last_check() == now_ms
                &&& if profile_for(*resources).lookup_key() == old(self).manager.profile().lookup_key() {
                    r is None
                } else {
                    &&& r is Some
                    &&& final(self).manager.profile() == profile_for(*resources)
                    &&& final(self).manager.strategy() == strategy_applied(old(self).manager.registered(), profile_for(*resources))
                }
            },
    {
        match self.manager.detect_and_adapt(now_ms, resources) {
            Some(strategy) => {
                let profile = self.manager.current_profile();
                self.follow(profile, &strategy);
                Some(strategy)
            },
            None => None,
        }
    }
}

} // verus!
