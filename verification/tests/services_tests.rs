use evo_pro::services::transaction::{
    finish_step, transaction_plan, PropagationBehavior, TransactionAttributes, TransactionFinish, TransactionPlan,
    TransactionRefusal,
};
use evo_pro::resources::detection::{
    calculate_disk_io, disk_info, network_info, DiskReading, NetworkConnectivity, NetworkInterface, ResourceDetector,
};
use evo_pro::services::service_core::{
    create_cached_result, CacheProvider, InMemoryCache, PaginationParams, ServiceMetrics, ValidationBuilder,
};
use evo_pro::services::traits::{ActorSystem, SortOrder};

#[test]
fn pagination_defaults_and_caps() {
    let p = PaginationParams::new(None, None);
    assert_eq!(p.limit(), 20);
    assert_eq!(p.offset(), 0);
    let p = PaginationParams::new(Some(500), Some(40));
    assert_eq!(p.limit(), 100);
    assert_eq!(p.offset(), 40);
    assert_eq!(PaginationParams::new(Some(7), None).limit(), 7);
}

#[test]
fn validation_builder_collects_entries() {
    let mut b = ValidationBuilder::new();
    b.add_warning("title", "long", "Title is long");
    let r = ValidationBuilder::new().build();
    assert!(r.valid);
    b.add_error("title", "required", "Title is required");
    let r = b.build();
    assert!(!r.valid);
    assert_eq!(r.errors.len(), 1);
    assert_eq!(r.errors[0].code, "required");
    assert_eq!(r.warnings[0].message, "Title is long");
}

#[test]
fn service_metrics_record_interactions() {
    let mut m = ServiceMetrics::new();
    m.add_interaction("TaskActor".to_string(), "create".to_string(), 12, true);
    let start = m.start_time_ms;
    let r = m.finish_at(42, start + 30);
    assert_eq!(r.data, 42);
    let meta = r.metadata.unwrap();
    assert_eq!(meta.execution_time_ms, 30);
    assert!(!meta.cache_hit);
    assert_eq!(meta.actor_interactions.len(), 1);
    let c = create_cached_result("x");
    assert!(c.metadata.unwrap().cache_hit);
    let mut cache = InMemoryCache {};
    cache.set("k", "v", Some(10));
    assert_eq!(cache.get("k"), None);
    let _ = ActorSystem::new();
    assert_ne!(SortOrder::Asc, SortOrder::Desc);
}

#[test]
fn detector_rates_and_totals() {
    let mut d = ResourceDetector::new(1_000, 10_000, 5_000);
    assert!(!d.needs_refresh(1_500));
    assert!(d.needs_refresh(2_001));
    d.refresh(1_500, 10_500, 5_100, &Vec::new());
    assert_eq!(d.network_bytes_per_sec, (None, None));
    d.refresh(3_000, 12_000, 6_000, &Vec::new());
    assert_eq!(d.network_bytes_per_sec, (Some(1_000), Some(500)));
    assert_eq!(d.disk_bytes_per_sec, (Some(0), Some(0)));
    assert_eq!(calculate_disk_io(&Vec::new()), (0, 0));

    let disks = vec![DiskReading { total: 100, available: 40 }, DiskReading { total: 50, available: 50 }];
    let info = disk_info(&disks, d.disk_bytes_per_sec);
    assert_eq!(info.total, 150);
    assert_eq!(info.free, 90);
    assert_eq!(info.used, 60);

    let ifaces = vec![
        NetworkInterface { name: "eth0".to_string(), mac_address: None, ip_addresses: Vec::new(), received: 7, transmitted: 3 },
        NetworkInterface { name: "lo".to_string(), mac_address: None, ip_addresses: Vec::new(), received: 1, transmitted: 1 },
    ];
    let net = network_info(ifaces, (None, None));
    assert_eq!(net.total_received, 8);
    assert_eq!(net.total_transmitted, 4);
    assert_eq!(net.connectivity, NetworkConnectivity::Unknown);
}

#[test]
fn transaction_plans_follow_propagation() {
    assert_eq!(transaction_plan(true, PropagationBehavior::Required), TransactionPlan::JoinExisting);
    assert_eq!(transaction_plan(true, PropagationBehavior::RequiresNew), TransactionPlan::BeginNew);
    assert_eq!(transaction_plan(true, PropagationBehavior::Nested), TransactionPlan::Savepoint);
    assert_eq!(transaction_plan(true, PropagationBehavior::NotSupported), TransactionPlan::NonTransactional);
    assert_eq!(
        transaction_plan(true, PropagationBehavior::Never),
        TransactionPlan::Refuse(TransactionRefusal::TransactionExists)
    );
    assert_eq!(transaction_plan(false, PropagationBehavior::Nested), TransactionPlan::BeginNew);
    assert_eq!(transaction_plan(false, PropagationBehavior::Never), TransactionPlan::NonTransactional);
    assert_eq!(transaction_plan(false, PropagationBehavior::Supports), TransactionPlan::NonTransactional);
    assert_eq!(
        transaction_plan(false, PropagationBehavior::Mandatory),
        TransactionPlan::Refuse(TransactionRefusal::NoTransaction)
    );
    assert_eq!(
        TransactionRefusal::NoTransaction.message(),
        "No transaction exists but propagation is set to MANDATORY"
    );
    assert_eq!(TransactionRefusal::TransactionExists.message(), "Transaction exists but propagation is set to NEVER");
    assert_eq!(finish_step(TransactionPlan::BeginNew, true), TransactionFinish::Commit);
    assert_eq!(finish_step(TransactionPlan::BeginNew, false), TransactionFinish::Rollback);
    assert_eq!(finish_step(TransactionPlan::Savepoint, true), TransactionFinish::ReleaseSavepoint);
    assert_eq!(finish_step(TransactionPlan::Savepoint, false), TransactionFinish::RollbackToSavepoint);
    assert_eq!(finish_step(TransactionPlan::JoinExisting, false), TransactionFinish::Nothing);
    assert_eq!(TransactionAttributes::default().propagation, PropagationBehavior::Required);
}
