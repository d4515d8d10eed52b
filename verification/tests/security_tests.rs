use evo_pro::security::secure_defaults::{
    AuthenticationSecureDefaults, DatabaseSecureDefaults, DefaultsStep, FileOperationSecureDefaults,
    InputValidationSecureDefaults, NetworkSecureDefaults, SecureDefaultsConfig, SecureDefaultsService,
};
use evo_pro::time_span::TimeSpan;

#[test]
fn secure_defaults_test_service_initialization() {
    let service = SecureDefaultsService::new(None);
    assert!(service.config.enabled);
    assert!(service.config.enforce);
    assert!(service.config.log_application);
}

#[test]
fn test_apply_database_defaults() {
    let service = SecureDefaultsService::new(None);
    let statements = service.database_statements();
    assert!(statements.contains(&"PRAGMA journal_mode = WAL"));
    assert!(statements.contains(&"PRAGMA foreign_keys = ON"));
}

#[test]
fn test_database_secure_defaults() {
    let conn_str = DatabaseSecureDefaults::get_connection_string("test.db");
    assert!(conn_str.contains("_journal_mode=WAL"));
    assert!(conn_str.contains("_foreign_keys=ON"));
    let pragmas = DatabaseSecureDefaults::get_pragmas();
    assert!(pragmas.contains(&"PRAGMA foreign_keys = ON"));
}

#[test]
fn test_network_secure_defaults() {
    assert_eq!(NetworkSecureDefaults::get_timeout(), TimeSpan::from_secs(30));
    assert!(NetworkSecureDefaults::get_tls_config());
    assert_eq!(NetworkSecureDefaults::get_keepalive_interval(), TimeSpan::from_secs(20));
}

#[test]
fn test_authentication_secure_defaults() {
    assert!(AuthenticationSecureDefaults::get_password_hashing_iterations() >= 10000);
    assert!(AuthenticationSecureDefaults::get_key_length() >= 32);
    assert_eq!(AuthenticationSecureDefaults::get_token_expiration(), TimeSpan::from_secs(3600));
}

#[test]
fn test_input_validation_secure_defaults() {
    assert!(InputValidationSecureDefaults::get_max_input_length() > 0);
    assert!(!InputValidationSecureDefaults::get_username_regex().is_empty());
    assert!(!InputValidationSecureDefaults::get_email_regex().is_empty());
}

#[test]
fn test_file_operation_secure_defaults() {
    assert_eq!(FileOperationSecureDefaults::temp_dir_name(), "evo-pro");
    assert_eq!(FileOperationSecureDefaults::get_file_permissions(), 0o600);
    assert_eq!(FileOperationSecureDefaults::get_directory_permissions(), 0o700);
}

#[test]
fn secure_defaults_steps() {
    let service = SecureDefaultsService::new(None);
    let steps = service.apply_secure_defaults();
    assert_eq!(steps.len(), 8);
    assert_eq!(steps[0], DefaultsStep::Database);
    assert_eq!(steps[7], DefaultsStep::Configuration);
    let off = SecureDefaultsService::new(Some(SecureDefaultsConfig { enabled: false, enforce: true, log_application: false }));
    assert!(off.apply_secure_defaults().is_empty());
    assert_eq!(
        DatabaseSecureDefaults::get_connection_string("a.db"),
        "a.db?mode=rwc&cache=shared&_journal_mode=WAL&_synchronous=NORMAL&_foreign_keys=ON&_busy_timeout=5000"
    );
}

use evo_pro::security::threat_modeling::{
    Asset, AssetSensitivity, DataFlow, Mitigation, MitigationStatus, Threat, ThreatCategory, ThreatModel,
    ThreatModelError, ThreatModelingService, ThreatSeverity, TrustBoundary, TrustBoundaryType,
};

#[test]
fn threat_modeling_test_service_initialization() {
    let service = ThreatModelingService::new();
    assert!(service.model_ids().is_empty());
}

#[test]
fn test_create_and_get_model() {
    let mut service = ThreatModelingService::new();
    let model_id = service.create_model("Test Model", "A test threat model");
    let model = service.get_model(model_id).unwrap();
    assert_eq!(model.name, "Test Model");
    assert_eq!(model.description, "A test threat model");
    assert!(model.threats.is_empty());
    assert_eq!(service.model_ids(), vec![model_id]);
}

#[test]
fn test_add_and_update_threat() {
    let mut service = ThreatModelingService::new();
    let model_id = service.create_model("Test Model", "A test threat model");
    let threat = Threat::new("Test Threat", "A test threat", ThreatCategory::Authentication, ThreatSeverity::High);
    let threat_id = threat.id;
    service.add_threat(model_id, threat).unwrap();

    let model = service.get_model(model_id).unwrap();
    assert_eq!(model.threats.len(), 1);
    assert_eq!(model.threats[0].id, threat_id);
    assert_eq!(model.threats[0].name, "Test Threat");

    let mut updated_threat =
        Threat::new("Test Threat", "A test threat", ThreatCategory::Authentication, ThreatSeverity::High);
    updated_threat.id = threat_id;
    updated_threat.description = "An updated test threat".to_string();
    service.update_threat(model_id, updated_threat).unwrap();

    let updated_model = service.get_model(model_id).unwrap();
    assert_eq!(updated_model.threats.len(), 1);
    assert_eq!(updated_model.threats[0].id, threat_id);
    assert_eq!(updated_model.threats[0].description, "An updated test threat");
}

#[test]
fn test_delete_threat() {
    let mut service = ThreatModelingService::new();
    let model_id = service.create_model("Test Model", "A test threat model");
    let threat = Threat::new("Test Threat", "A test threat", ThreatCategory::Authentication, ThreatSeverity::High);
    let threat_id = threat.id;
    service.add_threat(model_id, threat).unwrap();
    assert_eq!(service.get_model(model_id).unwrap().threats.len(), 1);
    service.delete_threat(model_id, threat_id).unwrap();
    assert_eq!(service.get_model(model_id).unwrap().threats.len(), 0);
    assert_eq!(service.delete_threat(model_id, threat_id), Err(ThreatModelError::ThreatNotFound(threat_id)));
}

#[test]
fn test_generate_common_threats() {
    let mut service = ThreatModelingService::new();
    let model_id = service.create_model("Test Model", "A test threat model");
    let mut model = ThreatModel::new("Test Model", "A test threat model");
    model.id = model_id;
    model.add_asset(Asset::new("Sensitive Data", "User personal information", AssetSensitivity::Confidential));
    model.add_data_flow(
        DataFlow::new("User Authentication", "User login flow", "Client", "Server", "Credentials")
            .with_authentication("Password"),
    );
    service.update_model(model);

    let threat_ids = service.generate_common_threats(model_id).unwrap();
    let updated_model = service.get_model(model_id).unwrap();
    assert!(!threat_ids.is_empty());
    assert_eq!(updated_model.threats.len(), threat_ids.len());
    let names: Vec<&str> = updated_model.threats.iter().map(|t| t.name.as_str()).collect();
    assert_eq!(
        names,
        vec!["Weak Authentication", "Sensitive Data Exposure", "Injection Attacks", "Broken Access Control"]
    );
}

#[test]
fn common_threats_of_a_bare_model() {
    let mut model = ThreatModel::new("Bare", "");
    let ids = model.add_common_threats();
    assert_eq!(ids.len(), 1);
    assert_eq!(model.threats[0].name, "Broken Access Control");
    assert_eq!(model.threats[0].likelihood, 7);
    assert!(!model.threats[0].is_mitigated());
}

#[test]
fn test_generate_report() {
    let mut service = ThreatModelingService::new();
    let model_id = service.create_model("Test Model", "A test threat model");
    let threat1 = Threat::new("Threat 1", "A high severity threat", ThreatCategory::Authentication, ThreatSeverity::High);
    let threat2 = Threat::new("Threat 2", "A medium severity threat", ThreatCategory::DataExposure, ThreatSeverity::Medium)
        .with_mitigation(Mitigation::new("Implement encryption").with_status(MitigationStatus::Implemented));
    service.add_threat(model_id, threat1).unwrap();
    service.add_threat(model_id, threat2).unwrap();

    let report = service.generate_report(model_id).unwrap();
    assert_eq!(report.model_id, model_id);
    assert_eq!(report.model_name, "Test Model");
    assert_eq!(report.total_threats, 2);
    assert_eq!(report.mitigated_count, 1);
    assert_eq!(report.unmitigated_count, 1);
    assert_eq!(report.severity_count(ThreatSeverity::High), 1);
    assert_eq!(report.severity_count(ThreatSeverity::Medium), 1);
    assert_eq!(report.severity_count(ThreatSeverity::Low), 0);
    assert_eq!(report.category_count(ThreatCategory::Authentication), 1);
    assert_eq!(report.category_count(ThreatCategory::DataExposure), 1);
    // High (8 * 5 / 10 = 4) and medium (5 * 5 / 10 = 2).
    assert_eq!(report.total_risk_score, 6);
}

#[test]
fn missing_models_are_reported() {
    let mut service = ThreatModelingService::new();
    assert_eq!(service.get_model(7).unwrap_err(), ThreatModelError::ModelNotFound(7));
    let t = Threat::new("t", "d", ThreatCategory::Other, ThreatSeverity::Low);
    assert_eq!(service.add_threat(7, t), Err(ThreatModelError::ModelNotFound(7)));
    assert!(service.generate_report(7).is_err());
    let id = service.create_model("m", "d");
    service.delete_model(id);
    assert!(service.get_model(id).is_err());
}

#[test]
fn threat_scores_and_filters() {
    let t = Threat::new("a", "b", ThreatCategory::Cryptography, ThreatSeverity::Critical).with_likelihood(200);
    assert_eq!(t.likelihood, 10);
    assert_eq!(t.risk_score(), 10);
    let low = Threat::new("c", "d", ThreatCategory::Other, ThreatSeverity::Low).with_likelihood(3);
    assert_eq!(low.risk_score(), 0);
    let mut model = ThreatModel::new("m", "d");
    model.add_threat(t);
    model.add_threat(low);
    model.add_trust_boundary(TrustBoundary::new("b", "d", TrustBoundaryType::Network));
    assert_eq!(model.threats_by_severity(ThreatSeverity::Low), vec![1]);
    assert_eq!(model.threats_by_category(ThreatCategory::Cryptography), vec![0]);
    assert_eq!(model.unmitigated_threats(), vec![0, 1]);
    assert_eq!(model.total_risk_score(), 10);
    assert_eq!(ThreatCategory::ThirdPartyComponents.to_string(), "Third-Party Components");
    assert_eq!(MitigationStatus::AcceptedRisk.to_string(), "Accepted Risk");
    assert_eq!(ThreatSeverity::Informational.to_string(), "Informational");
    assert_eq!(AssetSensitivity::Restricted.to_string(), "Restricted");
    assert_eq!(TrustBoundaryType::Domain.to_string(), "Domain");
    let m = Mitigation::new("x").with_responsible_party("ops").with_notes("n");
    assert_eq!(m.responsible_party.as_deref(), Some("ops"));
    assert_eq!(m.notes.as_deref(), Some("n"));
    let f = DataFlow::new("f", "d", "s", "t", "x").with_protocol("https").with_encryption(true);
    assert!(f.encrypted);
    assert_eq!(f.protocol.as_deref(), Some("https"));
    let r = Threat::new("r", "d", ThreatCategory::Other, ThreatSeverity::Low).with_reference("CWE", "79");
    assert_eq!(r.references.get(&"CWE".to_string()), Some(&"79".to_string()));
}

#[test]
fn default_models_are_created_once() {
    let mut service = ThreatModelingService::new();
    let id = service.initialize_default_models().expect("a new model");
    let model = service.get_model(id).unwrap();
    assert_eq!(model.name, "Evo Design Application");
    assert_eq!(model.assets.len(), 3);
    assert_eq!(model.assets[1].name, "Authentication Credentials");
    assert_eq!(model.trust_boundaries.len(), 2);
    assert_eq!(model.data_flows.len(), 2);
    assert_eq!(model.data_flows[0].authentication.as_deref(), Some("Password"));
    assert_eq!(model.data_flows[1].protocol.as_deref(), Some("HTTPS"));
    let names: Vec<&str> = model.threats.iter().map(|t| t.name.as_str()).collect();
    assert_eq!(
        names,
        vec!["Weak Authentication", "Sensitive Data Exposure", "Injection Attacks", "Broken Access Control"]
    );
    assert_eq!(service.initialize_default_models(), None);
    assert_eq!(service.model_ids(), vec![id]);
}
