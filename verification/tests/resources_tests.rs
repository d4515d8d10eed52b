use evo_pro::keyed::KeyedMap;
use evo_pro::resources::adaptation::{
    determine_profile, force_profile, get_current_profile, get_current_strategy, AdaptationStrategy,
    ResourceManager,
};
use evo_pro::resources::detection::{
    BatteryInfo, BatteryState, MemoryInfo, NetworkConnectivity, NetworkInfo, ResourceSnapshot,
};
use evo_pro::resources::enhancement::{
    force_disable_feature, force_enable_feature, get_enabled_features, is_feature_enabled, EnhancedFeature,
    EnhancementManager,
};
use evo_pro::resources::fallback::{
    force_activate_fallback, force_deactivate_fallback, get_active_fallback, get_active_fallbacks,
    is_fallback_active, FallbackManager, FallbackStrategy,
};
use evo_pro::resources::initialize;
use evo_pro::resources::profile::ResourceProfile;
use evo_pro::resources::system::ResourceSystem;
use evo_pro::time_span::TimeSpan;

#[test]
fn test_feature_availability() {
    // High-end profile should have all features available
    assert!(EnhancedFeature::HighResolutionAssets.is_available_for(ResourceProfile::HighEnd));
    assert!(EnhancedFeature::AdvancedVisualEffects.is_available_for(ResourceProfile::HighEnd));
    assert!(EnhancedFeature::RealTimeUpdates.is_available_for(ResourceProfile::HighEnd));

    // Mid-range profile should have most features available
    assert!(EnhancedFeature::HighResolutionAssets.is_available_for(ResourceProfile::MidRange));
    assert!(!EnhancedFeature::AdvancedVisualEffects.is_available_for(ResourceProfile::MidRange));
    assert!(EnhancedFeature::RealTimeUpdates.is_available_for(ResourceProfile::MidRange));

    // Low-end profile should have limited features available
    assert!(!EnhancedFeature::HighResolutionAssets.is_available_for(ResourceProfile::LowEnd));
    assert!(!EnhancedFeature::AdvancedVisualEffects.is_available_for(ResourceProfile::LowEnd));
    assert!(!EnhancedFeature::RealTimeUpdates.is_available_for(ResourceProfile::LowEnd));
    assert!(EnhancedFeature::BackgroundProcessing.is_available_for(ResourceProfile::LowEnd));
}

#[test]
fn test_enhancement_manager() {
    let mut manager = EnhancementManager::new();

    // Initially all features should be disabled
    assert!(!manager.is_feature_enabled(EnhancedFeature::HighResolutionAssets));

    // Enable a feature
    manager.enable_feature(EnhancedFeature::HighResolutionAssets);
    assert!(manager.is_feature_enabled(EnhancedFeature::HighResolutionAssets));

    // Update for high-end profile should enable most features
    manager.update_for_profile(ResourceProfile::HighEnd);
    assert!(manager.is_feature_enabled(EnhancedFeature::HighResolutionAssets));
    assert!(manager.is_feature_enabled(EnhancedFeature::AdvancedVisualEffects));

    // Update for low-end profile should disable most features
    manager.update_for_profile(ResourceProfile::LowEnd);
    assert!(!manager.is_feature_enabled(EnhancedFeature::HighResolutionAssets));
    assert!(!manager.is_feature_enabled(EnhancedFeature::AdvancedVisualEffects));
    assert!(manager.is_feature_enabled(EnhancedFeature::BackgroundProcessing));
}

#[test]
fn test_fallback_strategy_creation() {
    let strategy = FallbackStrategy::new(EnhancedFeature::HighResolutionAssets, "Test Strategy", "A test strategy")
        .with_resource_reduction(75)
        .with_functionality_preservation(60)
        .with_param("test_param", "test_value");

    assert_eq!(strategy.name, "Test Strategy");
    assert_eq!(strategy.feature, EnhancedFeature::HighResolutionAssets);
    assert_eq!(strategy.resource_reduction, 75);
    assert_eq!(strategy.functionality_preservation, 60);
    assert_eq!(strategy.custom_params.get(&"test_param".to_string()), Some(&"test_value".to_string()));
}

#[test]
fn test_fallback_manager() {
    let mut manager = FallbackManager::new();

    // Test that default strategies are registered
    let high_res_strategies = manager.get_strategies_for_feature(EnhancedFeature::HighResolutionAssets);
    assert!(!high_res_strategies.is_empty());

    // Test activating a fallback
    manager.activate_fallback(EnhancedFeature::HighResolutionAssets, ResourceProfile::Mobile);
    assert!(manager.get_active_strategy(EnhancedFeature::HighResolutionAssets).is_some());

    // Test deactivating a fallback
    manager.deactivate_fallback(EnhancedFeature::HighResolutionAssets);
    assert!(manager.get_active_strategy(EnhancedFeature::HighResolutionAssets).is_none());
}

#[test]
fn test_resource_adaptation() {
    let mut manager = ResourceManager::new();

    manager.force_profile(ResourceProfile::HighEnd);
    assert_eq!(manager.current_profile(), ResourceProfile::HighEnd);
    let strategy = manager.current_strategy();
    assert_eq!(strategy.profile, ResourceProfile::HighEnd);
    assert_eq!(strategy.batch_size, ResourceProfile::HighEnd.recommended_batch_size());
    assert_eq!(strategy.worker_threads, ResourceProfile::HighEnd.recommended_worker_threads());

    manager.force_profile(ResourceProfile::LowEnd);
    assert_eq!(manager.current_profile(), ResourceProfile::LowEnd);
    let strategy = manager.current_strategy();
    assert_eq!(strategy.profile, ResourceProfile::LowEnd);
    assert_eq!(strategy.batch_size, ResourceProfile::LowEnd.recommended_batch_size());
    assert_eq!(strategy.worker_threads, ResourceProfile::LowEnd.recommended_worker_threads());
}

#[test]
fn test_custom_strategy() {
    let custom_strategy = AdaptationStrategy::new(ResourceProfile::HighEnd)
        .with_batch_size(2000)
        .with_worker_threads(16)
        .with_cache_size_mb(2048)
        .with_compression_level(0)
        .with_polling_interval(TimeSpan::from_secs(30))
        .with_background_processing(true)
        .with_prefetching(true)
        .with_caching(true)
        .with_param("custom_param", "custom_value");

    let mut manager = ResourceManager::new();
    manager.register_strategy(ResourceProfile::HighEnd, custom_strategy.duplicate());
    manager.force_profile(ResourceProfile::HighEnd);
    let strategy = manager.current_strategy();

    assert_eq!(strategy.batch_size, 2000);
    assert_eq!(strategy.worker_threads, 16);
    assert_eq!(strategy.cache_size_mb, 2048);
    assert_eq!(strategy.compression_level, 0);
    assert_eq!(strategy.polling_interval, TimeSpan::from_secs(30));
    assert!(strategy.enable_background_processing);
    assert!(strategy.enable_prefetching);
    assert!(strategy.enable_caching);
    assert_eq!(strategy.custom_params.get(&"custom_param".to_string()), Some(&"custom_value".to_string()));
}

#[test]
fn registered_strategy_is_applied_after_other_profiles() {
    let mut manager = ResourceManager::new();
    let custom = AdaptationStrategy::new(ResourceProfile::Mobile).with_batch_size(7);
    manager.register_strategy(ResourceProfile::Mobile, custom);
    manager.force_profile(ResourceProfile::HighEnd);
    manager.force_profile(ResourceProfile::Mobile);
    assert_eq!(manager.current_strategy().batch_size, 7);
    assert_eq!(manager.get_strategy(ResourceProfile::Mobile).unwrap().batch_size, 7);
}

#[test]
fn unregistered_custom_profile_gets_default_strategy() {
    let mut manager = ResourceManager::new();
    let custom = ResourceProfile::Custom("lab".to_string());
    assert!(manager.get_strategy(custom.clone()).is_none());
    manager.force_profile(custom.clone());
    let s = manager.current_strategy();
    assert_eq!(s.profile, custom);
    assert_eq!(s.batch_size, custom.recommended_batch_size());
}

#[test]
fn compression_level_is_capped_at_nine() {
    let s = AdaptationStrategy::new(ResourceProfile::LowEnd).with_compression_level(42);
    assert_eq!(s.compression_level, 9);
}

fn snapshot(cores: usize, memory_gib: u64, connectivity: NetworkConnectivity, battery: Option<BatteryInfo>) -> ResourceSnapshot {
    ResourceSnapshot {
        logical_cores: cores,
        memory: MemoryInfo {
            total: memory_gib * 1024 * 1024 * 1024,
            used: 0,
            free: 0,
            available: 0,
            swap_total: 0,
            swap_used: 0,
        },
        network: NetworkInfo {
            interfaces: Vec::new(),
            total_received: 0,
            total_transmitted: 0,
            received_per_sec: None,
            transmitted_per_sec: None,
            connectivity,
        },
        battery,
    }
}

#[test]
fn profile_is_determined_from_resources() {
    assert_eq!(determine_profile(&snapshot(8, 16, NetworkConnectivity::Full, None)), ResourceProfile::HighEnd);
    assert_eq!(determine_profile(&snapshot(4, 8, NetworkConnectivity::Full, None)), ResourceProfile::MidRange);
    assert_eq!(determine_profile(&snapshot(2, 4, NetworkConnectivity::Full, None)), ResourceProfile::LowEnd);
    assert_eq!(determine_profile(&snapshot(1, 2, NetworkConnectivity::Full, None)), ResourceProfile::Mobile);
    assert_eq!(
        determine_profile(&snapshot(8, 16, NetworkConnectivity::Limited, None)),
        ResourceProfile::LimitedConnectivity
    );
    let low_battery = BatteryInfo { percentage_hundredths: 1500, state: BatteryState::Discharging, remaining_time: None };
    assert_eq!(
        determine_profile(&snapshot(8, 16, NetworkConnectivity::Full, Some(low_battery))),
        ResourceProfile::BatteryPowered
    );
}

#[test]
fn detect_and_adapt_waits_for_the_interval() {
    let mut manager = ResourceManager::new();
    manager.set_check_interval(TimeSpan::from_millis(1000));
    let now = evo_pro::clock::now_millis();
    // Within the interval nothing changes.
    let r = manager.detect_and_adapt(now, &snapshot(1, 1, NetworkConnectivity::Full, None));
    assert!(r.is_none() || manager.current_profile() == ResourceProfile::Mobile);
    // Well after it, the profile follows the resources.
    let r = manager.detect_and_adapt(now + 10_000, &snapshot(1, 1, NetworkConnectivity::Full, None));
    let _ = r;
    assert_eq!(manager.current_profile(), ResourceProfile::Mobile);
}

#[test]
fn linked_managers_follow_forced_profiles() {
    let mut system = ResourceSystem::new();
    initialize(&mut system);
    // The system starts mid-range.
    assert_eq!(get_current_profile(&system), ResourceProfile::MidRange);
    assert!(is_feature_enabled(&system, EnhancedFeature::HighResolutionAssets));
    assert!(!is_feature_enabled(&system, EnhancedFeature::AdvancedVisualEffects));
    assert!(is_fallback_active(&system, EnhancedFeature::AdvancedVisualEffects));
    assert!(!is_fallback_active(&system, EnhancedFeature::HighResolutionAssets));

    let s = force_profile(&mut system, ResourceProfile::Mobile);
    assert_eq!(s.profile, ResourceProfile::Mobile);
    assert_eq!(get_current_strategy(&system).profile, ResourceProfile::Mobile);
    assert!(get_enabled_features(&system).is_empty());
    // On a mobile profile the most resource-saving strategy is chosen.
    let active = get_active_fallback(&system, EnhancedFeature::HighResolutionAssets).unwrap();
    assert_eq!(active.name, "Low Resolution Assets");

    force_profile(&mut system, ResourceProfile::HighEnd);
    assert_eq!(get_enabled_features(&system).len(), 8);
    assert!(get_active_fallbacks(&system).len() == 0);
}

#[test]
fn fallback_choice_depends_on_profile() {
    let mut manager = FallbackManager::new();
    manager.activate_fallback(EnhancedFeature::HighResolutionAssets, ResourceProfile::MidRange);
    assert_eq!(
        manager.get_active_strategy(EnhancedFeature::HighResolutionAssets).unwrap().name,
        "Medium Resolution Assets"
    );
    manager.activate_fallback(EnhancedFeature::HighResolutionAssets, ResourceProfile::Mobile);
    assert_eq!(
        manager.get_active_strategy(EnhancedFeature::HighResolutionAssets).unwrap().name,
        "Low Resolution Assets"
    );
}

#[test]
fn forced_features_and_fallbacks() {
    let mut system = ResourceSystem::new();
    force_enable_feature(&mut system, EnhancedFeature::AdvancedAnalytics);
    assert!(is_feature_enabled(&system, EnhancedFeature::AdvancedAnalytics));
    assert_eq!(get_enabled_features(&system), vec![EnhancedFeature::AdvancedAnalytics]);
    force_disable_feature(&mut system, EnhancedFeature::AdvancedAnalytics);
    assert!(!is_feature_enabled(&system, EnhancedFeature::AdvancedAnalytics));

    assert!(force_activate_fallback(&mut system, EnhancedFeature::RealTimeUpdates, "Manual Updates"));
    assert_eq!(get_active_fallback(&system, EnhancedFeature::RealTimeUpdates).unwrap().name, "Manual Updates");
    assert!(!force_activate_fallback(&mut system, EnhancedFeature::RealTimeUpdates, "No Such Strategy"));
    assert_eq!(get_active_fallback(&system, EnhancedFeature::RealTimeUpdates).unwrap().name, "Manual Updates");
    force_deactivate_fallback(&mut system, EnhancedFeature::RealTimeUpdates);
    assert!(!is_fallback_active(&system, EnhancedFeature::RealTimeUpdates));
    assert!(get_active_fallback(&system, EnhancedFeature::RealTimeUpdates).is_none());
}

#[test]
fn strategy_params_round_trip() {
    let s = AdaptationStrategy::new(ResourceProfile::MidRange).with_param("a", "1").with_param("a", "2");
    assert_eq!(s.custom_params.get(&"a".to_string()), Some(&"2".to_string()));
    assert_eq!(s.custom_params.len(), 1);
    let m: KeyedMap<String, String> = KeyedMap::new();
    assert_eq!(m.len(), 0);
}

#[test]
fn feature_names_and_params() {
    assert_eq!(EnhancedFeature::HighResolutionAssets.name(), "High-Resolution Assets");
    assert_eq!(EnhancedFeature::Custom("x".to_string()).name(), "Custom: x");
    let mut manager = EnhancementManager::new();
    manager.set_feature_param(EnhancedFeature::RealTimeUpdates, "interval", "5");
    assert_eq!(
        manager.get_feature_param(EnhancedFeature::RealTimeUpdates, "interval"),
        Some(&"5".to_string())
    );
    assert_eq!(manager.get_feature_param(EnhancedFeature::RealTimeUpdates, "other"), None);
    assert_eq!(EnhancementManager::all_features().len(), 8);
}
