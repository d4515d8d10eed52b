use evo_pro::services::consent_management::{
    assemble_user_consent, consent_last_updated, data_preferences_from, later_update_time, parse_rfc3339_millis,
    CommunicationConsent, ThirdPartyConsent,
};
use evo_pro::services::data_deletion_verification::{
    certificate_refusal, verify_events_deletion, verify_messages_deletion, verify_profile_deletion,
    verify_user_data_deletion, verify_user_references_deletion, ProfileRecord, VerificationStatus,
};
use evo_pro::services::data_export::{
    escape_commas_text, export_csv_files, export_sections, AgentRow, ExportCategory, ExportMetadataRow, ExportRecords,
    MessageRow,
};
use evo_pro::services::data_minimization::{minimized_fields, UserField};
use evo_pro::services::data_retention::{is_inactive, RetentionAction, RetentionPolicy};
use evo_pro::services::data_usage_reporting::{
    generate_report, report_period, user_consent_status, DataUsageCategory, UserDataPreferences,
};
use evo_pro::services::privacy_analytics::{
    apply_basic_anonymization, check_consent, tracking_level, AnalyticsConfig, AnalyticsConsent, AnalyticsEvent,
    AnalyticsEventType, AnonymizationLevel,
};
use evo_pro::services::privacy_policy::{
    enforcement_verdict, logs_violation, EnforcementOutcome, EnforcementVerdict, PrivacyPolicyConfig,
};

const DAY: i64 = 86_400_000;

fn consent(user_id: u128, f: bool, p: bool, e: bool, u: bool, at: i64) -> AnalyticsConsent {
    AnalyticsConsent { user_id, feature_usage: f, performance: p, error_reporting: e, user_interface: u, updated_at_ms: at }
}

#[test]
fn consent_covers_the_consented_event_types() {
    let c = consent(7, true, false, true, false, 0);
    assert!(check_consent(Some(&c), AnalyticsEventType::FeatureUsage));
    assert!(!check_consent(Some(&c), AnalyticsEventType::Performance));
    assert!(check_consent(Some(&c), AnalyticsEventType::Error));
    assert!(!check_consent(Some(&c), AnalyticsEventType::UserInterface));
    assert!(!check_consent(Some(&c), AnalyticsEventType::Session));
    assert!(!check_consent(None, AnalyticsEventType::FeatureUsage));
}

#[test]
fn event_type_names_round_trip() {
    for t in [
        AnalyticsEventType::FeatureUsage,
        AnalyticsEventType::Performance,
        AnalyticsEventType::Error,
        AnalyticsEventType::UserInterface,
        AnalyticsEventType::Session,
        AnalyticsEventType::Custom,
    ] {
        assert_eq!(AnalyticsEventType::from_name(t.name()), Some(t));
    }
    assert_eq!(AnalyticsEventType::from_name("clicks"), None);
    assert_eq!(AnalyticsEventType::UserInterface.code(), 3);
    assert_eq!(AnonymizationLevel::Full.code(), 3);
}

#[test]
fn tracking_follows_configuration_and_consent() {
    let off = AnalyticsConfig::default();
    assert_eq!(off.retention_days, 90);
    assert_eq!(tracking_level(&off, false, true), None);
    let on = AnalyticsConfig {
        enabled: true,
        default_anonymization_level: AnonymizationLevel::Basic,
        retention_days: 7,
        collect_in_development: false,
        custom_config: None,
    };
    assert_eq!(tracking_level(&on, true, true), None);
    assert_eq!(tracking_level(&on, false, true), Some(AnonymizationLevel::Basic));
    assert_eq!(tracking_level(&on, false, false), Some(AnonymizationLevel::Full));
}

#[test]
fn basic_anonymization_removes_identifiers() {
    let props = vec![
        ("user_id".to_string(), "test-user-123".to_string()),
        ("email".to_string(), "user@example.com".to_string()),
        ("feature".to_string(), "test-feature".to_string()),
        ("duration".to_string(), "123.456".to_string()),
        ("timestamp".to_string(), "2023-01-01T12:34:56Z".to_string()),
        ("count".to_string(), "5".to_string()),
    ];
    let kept = apply_basic_anonymization(props);
    let keys: Vec<&str> = kept.iter().map(|(k, _)| k.as_str()).collect();
    assert_eq!(keys, vec!["feature", "duration", "timestamp", "count"]);
}

fn event(t: AnalyticsEventType, session: &str, at: i64) -> AnalyticsEvent {
    AnalyticsEvent {
        id: at as u128,
        event_type: t,
        event_name: "e".to_string(),
        session_id: session.to_string(),
        timestamp_ms: at,
        properties: "{}".to_string(),
        has_consent: true,
        anonymization_level: AnonymizationLevel::Basic,
    }
}

#[test]
fn usage_report_counts_the_users_events() {
    let now = 100 * DAY;
    let (start, end) = report_period(None, None, now);
    assert_eq!((start, end), (70 * DAY, 100 * DAY));
    let prefs = UserDataPreferences::default();
    assert_eq!(prefs.messages_retention_days, 365);
    let events = vec![
        event(AnalyticsEventType::FeatureUsage, "mine", 5),
        event(AnalyticsEventType::FeatureUsage, "other", 6),
        event(AnalyticsEventType::FeatureUsage, "mine", 7),
        event(AnalyticsEventType::Error, "mine", 8),
    ];
    let sessions = vec!["mine".to_string()];
    let c = consent(1, true, false, true, false, 42);
    let report = generate_report(1, now, start, end, Some(&c), &prefs, &events, &sessions, 5, Some(3), 2, None);
    assert_eq!(report.usage_by_category.len(), 6);
    let feature = &report.usage_by_category[2];
    assert_eq!(feature.category, DataUsageCategory::FeatureUsage);
    assert_eq!(feature.data_points_count, 2);
    assert_eq!(feature.last_collected_ms, Some(5));
    assert!(feature.has_consent);
    let errors = &report.usage_by_category[4];
    assert_eq!(errors.data_points_count, 1);
    let perf = &report.usage_by_category[3];
    assert_eq!(perf.data_points_count, 0);
    assert_eq!(perf.last_collected_ms, None);
    assert!(!perf.has_consent);
    assert_eq!(report.usage_by_category[0].data_points_count, 5);
    assert_eq!(report.usage_by_category[1].usage_description, "Used to provide messaging functionality and conversation history");
    assert_eq!(report.consent_status.last_updated_ms, 42);
    assert!(!report.data_sharing.shared_with_third_parties);
    assert_eq!(report.retention_summary.retention_periods.len(), 6);
    assert_eq!(report.retention_summary.retention_periods[0].retention_days, 730);
    assert_eq!(report.retention_summary.next_scheduled_deletion_ms, Some(now + 365 * DAY));
}

#[test]
fn consent_status_without_analytics_record() {
    let prefs = UserDataPreferences::default();
    let s = user_consent_status(None, &prefs, 9);
    assert!(s.profile && s.preferences && s.messages);
    assert!(!s.feature_usage && !s.error_reports);
    assert_eq!(s.last_updated_ms, 9);
}

#[test]
fn user_consent_assembly_and_round_trip() {
    let record = consent(3, true, true, false, true, 100);
    assert_eq!(later_update_time(Some(&record), Some(150), 999), 150);
    assert_eq!(later_update_time(Some(&record), Some(50), 999), 100);
    assert_eq!(later_update_time(None, Some(150), 999), 999);
    let status = assemble_user_consent(3, Some(&record), None, None, None, None, 999);
    assert_eq!(status.last_updated_ms, 100);
    assert!(status.analytics.feature_usage && !status.analytics.error_reporting);
    assert_eq!(status.data_collection.profile_retention_days, 730);
    assert_eq!(
        status.communication,
        CommunicationConsent { product_updates: false, feature_announcements: false, marketing: false }
    );
    assert!(!status.third_party.allow_sharing);
    let prefs = data_preferences_from(&status);
    assert!(prefs.feature_usage_consent && prefs.ui_analytics_consent && !prefs.error_reporting_consent);
    let again = assemble_user_consent(
        3,
        Some(&record),
        None,
        Some(prefs),
        None,
        Some(ThirdPartyConsent { allow_sharing: true, approved_parties: vec!["acme".to_string()] }),
        999,
    );
    assert_eq!(again.data_collection, status.data_collection);
    assert_eq!(again.third_party.approved_parties, vec!["acme".to_string()]);
}

#[test]
fn retention_policy_steps() {
    let now = 1_000 * DAY;
    let policy = RetentionPolicy {
        messages_retention_days: Some(30),
        events_retention_days: Some(60),
        inactive_account_days: Some(365),
        anonymize_instead_of_delete: false,
        excluded_categories: vec![],
    };
    assert_eq!(
        policy.actions_at(now),
        vec![
            RetentionAction::DeleteMessagesBefore(now - 30 * DAY),
            RetentionAction::DeleteEventsBefore(now - 60 * DAY),
            RetentionAction::AnonymizeIfInactiveSince(now - 365 * DAY),
        ]
    );
    // A message from a hundred days ago is older than the cutoff.
    assert!(now - 100 * DAY < now - 30 * DAY);
    let d = RetentionPolicy::default();
    assert_eq!(
        d.actions_at(now),
        vec![
            RetentionAction::AnonymizeMessagesBefore(now - 365 * DAY),
            RetentionAction::AnonymizeEventsBefore(now - 180 * DAY),
            RetentionAction::AnonymizeIfInactiveSince(now - 730 * DAY),
        ]
    );
    let keep = RetentionPolicy { messages_retention_days: None, events_retention_days: None, ..d };
    assert_eq!(keep.actions_at(now), vec![RetentionAction::AnonymizeIfInactiveSince(now - 730 * DAY)]);
    assert!(is_inactive(Some(1), 2));
    assert!(!is_inactive(Some(2), 2));
    assert!(!is_inactive(None, 2));
}

fn profile(status: &str, email: Option<&str>, first: Option<&str>) -> ProfileRecord {
    ProfileRecord {
        status_text: status.to_string(),
        status_label: "Active".to_string(),
        email: email.map(|s| s.to_string()),
        first_name: first.map(|s| s.to_string()),
        last_name: None,
    }
}

#[test]
fn profile_deletion_checks() {
    let gone = verify_profile_deletion(None);
    assert!(gone.deletion_successful);
    assert_eq!(gone.details, "User profile has been successfully deleted");
    let active = verify_profile_deletion(Some(&profile("active", None, None)));
    assert!(!active.deletion_successful);
    assert_eq!(active.items_with_issues, 1);
    assert_eq!(active.details, "User profile still exists with status: Active");
    let email = verify_profile_deletion(Some(&profile("deleted", Some("a@b.c"), None)));
    assert_eq!(email.details, "User email still exists and is not anonymized");
    let name = verify_profile_deletion(Some(&profile("deleted", Some("a***@b.c"), Some("Test"))));
    assert_eq!(name.details, "User first name still exists and is not anonymized");
    let ok = verify_profile_deletion(Some(&profile("deleted", Some("a***@b.c"), Some("T."))));
    assert!(ok.deletion_successful);
}

#[test]
fn deletion_verification_statuses() {
    let messages = verify_messages_deletion(4);
    assert_eq!(messages.details, "4 messages still exist");
    let events = verify_events_deletion(0);
    assert_eq!(events.details, "All events have been successfully deleted");
    let refs = verify_user_references_deletion(2, 0, 5);
    assert_eq!(refs.items_with_issues, 2);
    assert_eq!(refs.details, "Found 7 references to the user in tables: participants (2), agents (5)");
    let none = verify_user_references_deletion(0, 0, 0);
    assert_eq!(none.details, "No references to the user found in the system");

    let r = verify_user_data_deletion(9, 1, verify_profile_deletion(None), messages, events, refs);
    assert!(!r.deletion_successful);
    assert_eq!(r.verification_status, VerificationStatus::PartiallyVerified);
    assert_eq!(
        r.issues_found,
        vec![
            "Message data still exists: 4 messages still exist".to_string(),
            "References to user still exist: Found 7 references to the user in tables: participants (2), agents (5)"
                .to_string(),
        ]
    );
    assert_eq!(r.recommendations.len(), 2);
    assert_eq!(
        certificate_refusal(&r),
        Some("Cannot generate deletion certificate: data deletion verification failed with status PartiallyVerified".to_string())
    );

    let clean = verify_user_data_deletion(
        9,
        1,
        verify_profile_deletion(None),
        verify_messages_deletion(0),
        verify_events_deletion(0),
        verify_user_references_deletion(0, 0, 0),
    );
    assert_eq!(clean.verification_status, VerificationStatus::FullyVerified);
    assert!(clean.issues_found.is_empty());
    assert_eq!(certificate_refusal(&clean), None);

    let mut heavy = verify_messages_deletion(3);
    heavy.items_with_issues = 11;
    let failed = verify_user_data_deletion(
        9,
        1,
        verify_profile_deletion(None),
        heavy,
        verify_events_deletion(0),
        verify_user_references_deletion(0, 0, 0),
    );
    assert_eq!(failed.verification_status, VerificationStatus::VerificationFailed);
}

#[test]
fn export_all_selects_the_profile_only() {
    let s = export_sections(&vec![ExportCategory::All]);
    assert!(s.profile && !s.messages && !s.preferences && !s.agents && !s.events && !s.addresses);
    let s = export_sections(&vec![ExportCategory::Messages, ExportCategory::Addresses]);
    assert!(!s.profile && s.messages && s.addresses && !s.events);
}

#[test]
fn minimized_fields_by_purpose() {
    assert_eq!(
        minimized_fields("display"),
        vec![UserField::Id, UserField::DisplayName, UserField::AvatarUrl, UserField::Status]
    );
    assert_eq!(minimized_fields("messaging").len(), 5);
    assert_eq!(minimized_fields("profile").len(), 9);
    assert_eq!(minimized_fields("other"), vec![UserField::Id, UserField::DisplayName]);
    assert_eq!(UserField::AvatarUrl.key(), "avatarUrl");
}

fn outcome(rule: &str, compliant: bool) -> EnforcementOutcome {
    EnforcementOutcome { rule_id: rule.to_string(), compliant, details: "d".to_string(), remediation: None }
}

#[test]
fn policy_verdicts() {
    let outcomes = vec![outcome("a", true), outcome("b", false), outcome("c", false)];
    let cfg = PrivacyPolicyConfig::default();
    assert_eq!(enforcement_verdict(&outcomes, &cfg), EnforcementVerdict::Blocked(1));
    let lenient = PrivacyPolicyConfig { block_violations: false, ..cfg };
    assert_eq!(enforcement_verdict(&outcomes, &lenient), EnforcementVerdict::Allowed);
    let off = PrivacyPolicyConfig { enforcement_enabled: false, ..cfg };
    assert_eq!(enforcement_verdict(&outcomes, &off), EnforcementVerdict::Skipped);
    assert!(logs_violation(&outcomes[1], &cfg));
    assert!(!logs_violation(&outcomes[0], &cfg));
}

#[test]
fn csv_export_escapes_commas() {
    assert_eq!(escape_commas_text("a,b,,c"), "a\\,b\\,\\,c");
    assert_eq!(escape_commas_text("plain"), "plain");
    let data = ExportRecords {
        metadata: ExportMetadataRow {
            export_date: "2024-01-01T00:00:00Z".to_string(),
            user_id: "u1".to_string(),
            include_deleted: false,
        },
        profile: None,
        messages: Some(vec![
            MessageRow {
                id: "m1".to_string(),
                conversation_id: "c1".to_string(),
                sender_id: "u1".to_string(),
                content: "hi, there".to_string(),
                created_at: "t1".to_string(),
            },
            MessageRow {
                id: "m2".to_string(),
                conversation_id: "c1".to_string(),
                sender_id: "u2".to_string(),
                content: "ok".to_string(),
                created_at: "t2".to_string(),
            },
        ]),
        agents: Some(vec![AgentRow {
            id: "a1".to_string(),
            name: "Bot, Jr".to_string(),
            description: None,
            status: "Active".to_string(),
            created_at: "t3".to_string(),
        }]),
        events: None,
        addresses: Some(vec![]),
    };
    let files = export_csv_files(&data);
    assert_eq!(
        files,
        vec![
            (
                "metadata.csv".to_string(),
                "export_date,user_id,include_deleted\n2024-01-01T00:00:00Z,u1,false\n".to_string()
            ),
            (
                "messages.csv".to_string(),
                "id,conversation_id,sender_id,content,created_at\nm1,c1,u1,hi\\, there,t1\nm2,c1,u2,ok,t2\n".to_string()
            ),
            (
                "agents.csv".to_string(),
                "id,name,description,status,created_at\na1,Bot\\, Jr,,Active,t3\n".to_string()
            ),
            (
                "addresses.csv".to_string(),
                "id,address_type,street,city,state,postal_code,country,created_at\n".to_string()
            ),
        ]
    );
}

#[test]
fn stored_preference_times_are_parsed() {
    assert_eq!(parse_rfc3339_millis("1970-01-01T00:00:01Z"), Some(1_000));
    assert_eq!(parse_rfc3339_millis("2001-09-09T01:46:40.555Z"), Some(1_000_000_000_555));
    assert_eq!(parse_rfc3339_millis("2001-09-09T03:46:40+02:00"), Some(1_000_000_000_000));
    assert_eq!(parse_rfc3339_millis("yesterday"), None);
    let record = consent(3, true, true, false, true, 1_000_000_000_000);
    assert_eq!(consent_last_updated(Some(&record), Some("2001-09-09T01:46:41Z"), 7), 1_000_000_001_000);
    assert_eq!(consent_last_updated(Some(&record), Some("2001-09-09T01:46:39Z"), 7), 1_000_000_000_000);
    assert_eq!(consent_last_updated(Some(&record), Some("not a time"), 7), 1_000_000_000_000);
    assert_eq!(consent_last_updated(Some(&record), None, 7), 1_000_000_000_000);
    assert_eq!(consent_last_updated(None, Some("2001-09-09T01:46:41Z"), 7), 7);
    let status = assemble_user_consent(3, Some(&record), Some("2030-01-01T00:00:00Z"), None, None, None, 7);
    assert_eq!(status.last_updated_ms, 1_893_456_000_000);
}
