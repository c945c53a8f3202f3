use optionclaw::services::signals::{audit_append_metrics, decision_log, paper_decision_metrics};
use optionclaw::domain::{RiskDecision, RiskReasonCode};
use optionclaw::errors::{
    AppError, CliError, ConfigError, DomainError, PersistenceError, SecurityError,
};
use optionclaw::observability::{
    current_logging_level, error_code_from_display, init_logging, record_metric,
    reset_metrics_for_test, snapshot_metrics, LogLevel, LoggingState, MetricEvent,
    MetricRegistry, StructuredField, StructuredLogEvent,
};

#[test]
fn logging_level_initializes_once() {
    let mut state = LoggingState::new();
    let config = init_logging(&mut state, LogLevel::Debug);
    assert_eq!(current_logging_level(&state), Some(config.level));
}

#[test]
fn second_initialisation_keeps_the_first_level() {
    let mut state = LoggingState::new();
    assert_eq!(current_logging_level(&state), None);
    init_logging(&mut state, LogLevel::Info);
    let again = init_logging(&mut state, LogLevel::Error);
    assert_eq!(again.level, LogLevel::Info);
    assert_eq!(current_logging_level(&state), Some(LogLevel::Info));
}

#[test]
fn records_metrics_with_stable_keys() {
    let mut registry = MetricRegistry::new();
    reset_metrics_for_test(&mut registry);

    record_metric(&mut registry, MetricEvent::command_success("health"));
    record_metric(&mut registry, MetricEvent::command_success("health"));
    record_metric(&mut registry, MetricEvent::command_failure("health", "E1001"));

    let snapshot = snapshot_metrics(&registry);
    assert_eq!(snapshot.get("command_success{command=health}"), Some(2_u64));
    assert_eq!(snapshot.get("command_failure{command=health,error_code=E1001}"), Some(1_u64));
}

#[test]
fn health_status_metric_includes_expected_labels() {
    let event = MetricEvent::health_status(true, false, true, true, false, false);
    assert!(event.key().contains("health_status"));
    assert!(event.key().contains("kill_switch_active=false"));
}

#[test]
fn metric_labels_are_sorted_in_keys() {
    let event = MetricEvent::new("m").with_label("z", "1").with_label("a", "2");
    assert_eq!(event.key(), "m{a=2,z=1}");
    assert_eq!(MetricEvent::new("plain").key(), "plain");
}

#[test]
fn reset_forgets_counts() {
    let mut registry = MetricRegistry::new();
    record_metric(&mut registry, MetricEvent::audit_append(true));
    assert_eq!(registry.count(&MetricEvent::audit_append(true).key()), Some(1));
    reset_metrics_for_test(&mut registry);
    assert_eq!(snapshot_metrics(&registry).len(), 0);
}

#[test]
fn redacted_fields_never_hold_the_value() {
    let event = StructuredLogEvent::new_at(5, LogLevel::Info, "check-config", "load", "success")
        .with_field(StructuredField::plain("config_path", "config/example.toml"))
        .with_field(StructuredField::redacted("api_key", "super-secret"));
    assert_eq!(event.timestamp_unix_seconds, 5);
    assert_eq!(event.fields.len(), 2);
    assert_eq!(event.fields[1].value, "<redacted>");
    assert!(event.fields[1].redacted);
    assert_eq!(event.fields[0].value, "config/example.toml");
}

#[test]
fn error_code_is_the_text_before_the_first_colon() {
    assert_eq!(error_code_from_display("SECRET_MISSING: secret `k` is missing"), "SECRET_MISSING");
}

#[test]
fn failure_metrics_read_each_error_code_back_from_its_message() {
    let errors = vec![
        AppError::Config(ConfigError::Parse { path: "c.toml".to_string(), detail: "bad: key".to_string() }),
        AppError::Domain(DomainError::InvalidPrice { value_micros: -5 }),
        AppError::Security(SecurityError::KillSwitchActive),
        AppError::Persistence(PersistenceError::Missing { path: "a:b".to_string() }),
    ];
    let codes = ["E1002", "DOMAIN_INVALID_PRICE", "KILL_SWITCH_ACTIVE", "PERSISTENCE_MISSING"];
    for (err, code) in errors.iter().zip(codes) {
        assert_eq!(error_code_from_display(&err.message()), code);
    }
    let cli = CliError::UnknownCommand { command: "x:y".to_string() };
    assert_eq!(error_code_from_display(&cli.message()), "CLI_UNKNOWN_COMMAND");
}

#[test]
fn metrics_record_local_operational_signals() {
    let mut registry = MetricRegistry::new();
    reset_metrics_for_test(&mut registry);

    record_metric(&mut registry, MetricEvent::command_success("health"));
    record_metric(&mut registry, MetricEvent::command_failure("health", "E1001"));
    record_metric(&mut registry, MetricEvent::health_status(true, true, true, true, true, false));

    let snapshot = snapshot_metrics(&registry);
    assert_eq!(snapshot.get("command_success{command=health}"), Some(1_u64));
    assert_eq!(snapshot.get("command_failure{command=health,error_code=E1001}"), Some(1_u64));
    assert_eq!(
        snapshot.get(
            "health_status{audit_ready=true,config_ready=true,data_ready=true,kill_switch_active=false,providers_ready=true,secrets_store_ready=true}"
        ),
        Some(1_u64)
    );
}

#[test]
fn structured_log_redacts_secret_fields() {
    let mut state = LoggingState::new();
    init_logging(&mut state, LogLevel::Info);

    let event = StructuredLogEvent::new(LogLevel::Info, "check-config", "load", "success")
        .with_field(StructuredField::plain("config_path", "config/example.toml"))
        .with_field(StructuredField::redacted("api_key", "super-secret"));

    assert!(event.fields.iter().any(|f| f.redacted));
    assert!(event.fields.iter().all(|f| !f.value.contains("super-secret")));
}

#[test]
fn labels_commute_and_the_last_value_wins() {
    let a = MetricEvent::new("m").with_label("x", "1").with_label("y", "2");
    let b = MetricEvent::new("m").with_label("y", "2").with_label("x", "1");
    assert_eq!(a.key(), b.key());
    let c = MetricEvent::new("m").with_label("x", "1").with_label("x", "2");
    assert_eq!(c.key(), MetricEvent::new("m").with_label("x", "2").key());
    assert_eq!(c.key(), "m{x=2}");
}

#[test]
fn paper_outcomes_produce_their_signals() {
    let rejected = RiskDecision::rejected(RiskReasonCode::KillSwitchActive, "kill switch is active");
    let metrics = paper_decision_metrics(&rejected);
    assert_eq!(metrics.len(), 3);
    assert_eq!(metrics[0].key(), "adapter_result{operation=snapshot,provider=market_data,result=success}");
    assert_eq!(metrics[2].key(), "risk_decision{result=rejected}");
    let log = decision_log("risk", &rejected, "paper", "intent-1", "s", "r", Some("order.json"));
    assert_eq!(log.level, LogLevel::Warn);
    assert_eq!(log.result, "rejected");
    assert_eq!(log.fields[0].value, "order.json");
    assert_eq!(log.fields[1].value, "KILL_SWITCH_ACTIVE: kill switch is active");
    let failed = audit_append_metrics(false, true);
    assert_eq!(failed[0].key(), "paper_execution{result=rejected}");
    assert_eq!(failed[1].key(), "audit_append{result=failure}");
}
