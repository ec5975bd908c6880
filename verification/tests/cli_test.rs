use pullpiri::settings::{
    applied_message, applying_message, delete_endpoint, delete_endpoint_for, deleted_message,
    deleting_message, file_not_found, file_source, health_outcome, next_health_step,
    service_url, CliError, FileSource, HealthStep, SettingsClient,
};

#[test]
fn test_error_display() {
    let error = CliError::Custom("test error".to_string());
    assert_eq!(error.to_string(), "Error: test error");
}

#[test]
fn cli_test_test_client_creation() {
    let client = SettingsClient::new("http://localhost:47098", 30);
    assert!(client.is_ok());
}

#[test]
fn test_settings_client_creation_port_8080() {
    let client = SettingsClient::new("http://localhost:8080", 30);
    assert!(client.is_ok());
}

#[test]
fn test_api_client_creation_port_47099() {
    let client = SettingsClient::new("http://localhost:47099", 30);
    assert!(client.is_ok());
}

#[test]
fn test_dual_client_creation() {
    let base_url = "http://localhost";
    let settings_url = service_url(base_url, 8080);
    let api_url = service_url(base_url, 47099);

    let settings_client = SettingsClient::new(&settings_url, 30);
    let api_client = SettingsClient::new(&api_url, 30);

    assert!(settings_client.is_ok(), "SettingsService client creation failed");
    assert!(api_client.is_ok(), "API Server client creation failed");
}

#[test]
fn test_dual_client_independence() {
    let base_url = "http://192.0.2.1";
    let settings_url = service_url(base_url, 8080);
    let api_url = service_url(base_url, 47099);

    assert!(
        SettingsClient::new(&settings_url, 30).is_ok(),
        "SettingsService client for remote host failed"
    );
    assert!(
        SettingsClient::new(&api_url, 30).is_ok(),
        "API Server client for remote host failed"
    );
}

#[test]
fn test_url_construction_format() {
    let base_url = "http://localhost";
    let settings_port: u16 = 8080;
    let api_port: u16 = 47099;

    let settings_url = service_url(base_url, settings_port);
    let api_url = service_url(base_url, api_port);

    assert_eq!(settings_url, "http://localhost:8080");
    assert_eq!(api_url, "http://localhost:47099");
}

#[test]
fn integration_test_test_client_creation() {
    let client = SettingsClient::new("http://localhost:47099", 30);
    assert!(client.is_ok());
}

#[test]
fn test_client_creation_with_invalid_timeout() {
    let client = SettingsClient::new("http://localhost:47099", 0);
    assert!(client.is_ok());
}

#[test]
fn client_keeps_url_and_timeout() {
    let client = SettingsClient::new("http://10.0.0.1:8080", 12).unwrap();
    assert_eq!(client.base_url, "http://10.0.0.1:8080");
    assert_eq!(client.timeout_secs, 12);
    assert_eq!(client.health_url(), "http://10.0.0.1:8080/api/v1/health");
    assert_eq!(client.api_health_url(), "http://10.0.0.1:8080/api/health");
    assert_eq!(client.artifact_url(), "http://10.0.0.1:8080/api/artifact");
    assert_eq!(client.url_for("/x"), "http://10.0.0.1:8080/x");
}

#[test]
fn service_url_trims_trailing_slashes() {
    assert_eq!(service_url("http://localhost/", 8080), "http://localhost:8080");
    assert_eq!(service_url("http://localhost///", 1), "http://localhost:1");
    assert_eq!(service_url("", 0), ":0");
    assert_eq!(service_url("h", 65535), "h:65535");
}

#[test]
fn service_urls_differ_by_port() {
    assert_ne!(service_url("http://h", 80), service_url("http://h", 8080));
}

#[test]
fn other_error_texts() {
    assert_eq!(
        CliError::InvalidResourceType("pod".to_string()).to_string(),
        "Invalid resource type: pod"
    );
    assert_eq!(CliError::Io("boom".to_string()).to_string(), "IO error: boom");
    assert_eq!(CliError::Http("down".to_string()).to_string(), "HTTP error: down");
}

#[test]
fn delete_routes_scenarios_and_packages() {
    assert_eq!(delete_endpoint("scenario", "s1").unwrap(), "/api/v1/scenarios/s1");
    assert_eq!(delete_endpoint("Scenario", "s1").unwrap(), "/api/v1/scenarios/s1");
    assert_eq!(delete_endpoint("PACKAGE", "p1").unwrap(), "/api/v1/packages/p1");
    // KELVIN SIGN lower-cases to an ASCII 'k'.
    assert_eq!(delete_endpoint("pac\u{212A}age", "p2").unwrap(), "/api/v1/packages/p2");
}

#[test]
fn delete_refuses_other_types() {
    match delete_endpoint("Model", "m") {
        Err(CliError::InvalidResourceType(t)) => assert_eq!(t, "Model"),
        _ => panic!("expected an invalid resource type"),
    }
    match delete_endpoint_for("scenarios", "Scenarios", "x") {
        Err(CliError::InvalidResourceType(t)) => assert_eq!(t, "Scenarios"),
        _ => panic!("expected an invalid resource type"),
    }
}

#[test]
fn delete_endpoint_for_lowered_name() {
    assert_eq!(delete_endpoint_for("package", "Package", "a b").unwrap(), "/api/v1/packages/a b");
}

#[test]
fn apply_sources() {
    assert!(matches!(file_source("-"), FileSource::Stdin));
    match file_source("./a.yaml") {
        FileSource::File(p) => assert_eq!(p, "./a.yaml"),
        FileSource::Stdin => panic!("expected a file"),
    }
    match file_not_found("x.yaml") {
        CliError::Custom(m) => assert_eq!(m, "File not found: x.yaml"),
        _ => panic!("expected a custom error"),
    }
}

#[test]
fn command_messages() {
    assert_eq!(applying_message("a.yaml"), "Applying a.yaml...");
    assert_eq!(applied_message("a.yaml"), "a.yaml applied successfully");
    assert_eq!(deleting_message("scenario", "s"), "Deleting scenario 's'...");
    assert_eq!(deleted_message("scenario", "s"), "scenario 's' deleted");
}

fn run_health(settings: Result<bool, CliError>, api: Result<bool, CliError>) -> (HealthStep, bool) {
    let mut probed_api = false;
    let step = next_health_step(HealthStep::CheckSettings, settings);
    let step = match step {
        HealthStep::CheckApi => {
            probed_api = true;
            next_health_step(HealthStep::CheckApi, api)
        }
        other => other,
    };
    (step, probed_api)
}

#[test]
fn health_passes_when_both_healthy() {
    let (step, probed) = run_health(Ok(true), Ok(true));
    assert!(probed);
    assert!(matches!(step, HealthStep::Passed));
    assert!(health_outcome(step).is_ok());
}

#[test]
fn health_stops_at_unreachable_settings() {
    let (step, probed) = run_health(Ok(false), Ok(true));
    assert!(!probed);
    match health_outcome(step) {
        Err(e) => assert_eq!(e.to_string(), "Error: SettingsService health check failed"),
        Ok(()) => panic!("expected failure"),
    }
}

#[test]
fn health_reports_unreachable_api() {
    let (step, _) = run_health(Ok(true), Ok(false));
    match health_outcome(step) {
        Err(e) => assert_eq!(e.to_string(), "Error: API Server health check failed"),
        Ok(()) => panic!("expected failure"),
    }
}

#[test]
fn health_passes_probe_errors_through() {
    let (step, probed) = run_health(Err(CliError::Http("refused".to_string())), Ok(true));
    assert!(!probed);
    match health_outcome(step) {
        Err(CliError::Http(m)) => assert_eq!(m, "refused"),
        _ => panic!("expected the probe error"),
    }
    let (step, _) = run_health(Ok(true), Err(CliError::Io("x".to_string())));
    assert!(matches!(health_outcome(step), Err(CliError::Io(_))));
}

#[test]
fn finished_health_steps_stay() {
    assert!(matches!(next_health_step(HealthStep::Passed, Ok(false)), HealthStep::Passed));
}
