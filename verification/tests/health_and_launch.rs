//! Health-check normalization, response classification, the retry budget,
//! launch planning and argument templating.

use module_supervisor::error::{ConfigIssue, ModuleError};
use module_supervisor::health::{
    is_healthy_response, normalize_health_path, HealthWait, ProbeVerdict, HEALTH_RETRY_COUNT,
    HEALTH_RETRY_INTERVAL_MS,
};
use module_supervisor::launch::{build_launch_plan, resolve_program, Program};
use module_supervisor::manifest::{BackendConfig, Manifest, UiConfig};
use module_supervisor::text::{replace_str, trim_str, u16_dec};

fn sample_manifest(language: &str, args: Vec<&str>) -> Manifest {
    Manifest {
        id: "demo_module".to_string(),
        name: "Demo".to_string(),
        version: "1.0.0".to_string(),
        description: None,
        author: None,
        icon: None,
        backend: BackendConfig {
            enabled: true,
            language: language.to_string(),
            entrypoint: "main.py".to_string(),
            args: args.into_iter().map(str::to_string).collect(),
            port: 8000,
            health_check: None,
        },
        ui: UiConfig { mode: "declarative".to_string(), layout: None },
        permissions: None,
    }
}

#[test]
fn path_normalization_defaults_and_prefixes() {
    assert_eq!(normalize_health_path(None), "/health");
    assert_eq!(normalize_health_path(Some("")), "/health");
    assert_eq!(normalize_health_path(Some("  ")), "/health");
    assert_eq!(normalize_health_path(Some("api/ping")), "/api/ping");
    assert_eq!(normalize_health_path(Some("/status")), "/status");
}

#[test]
fn path_normalization_trims_whitespace() {
    assert_eq!(normalize_health_path(Some("  /status  ")), "/status");
    assert_eq!(normalize_health_path(Some("\tapi/ping\n")), "/api/ping");
}

#[test]
fn argument_templating_substitutes_every_placeholder() {
    let m = sample_manifest("python", vec!["--port", "{PORT}", "--mode={PORT}x"]);
    let plan = build_launch_plan(&m, 8080, true).expect("plan");
    assert_eq!(plan.program, Program::Python);
    assert_eq!(plan.port, 8080);
    assert_eq!(plan.args, vec!["main.py", "--port", "8080", "--mode=8080x"]);
}

#[test]
fn arguments_without_placeholder_are_unchanged() {
    let m = sample_manifest("java", vec!["-jar", "server.jar"]);
    let plan = build_launch_plan(&m, 9000, true).expect("plan");
    assert_eq!(plan.program, Program::Java);
    assert_eq!(plan.args, vec!["main.py", "-jar", "server.jar"]);
}

#[test]
fn placeholder_may_occur_twice_in_one_argument() {
    assert_eq!(replace_str("{PORT}-{PORT}", "{PORT}", "8080"), "8080-8080");
    assert_eq!(replace_str("no placeholder", "{PORT}", "8080"), "no placeholder");
}

#[test]
fn language_matching_is_case_insensitive() {
    assert_eq!(resolve_program("PyThOn"), Some(Program::Python));
    assert_eq!(resolve_program("JAVA"), Some(Program::Java));
    assert_eq!(resolve_program("node"), Some(Program::Node));
    assert_eq!(resolve_program("JavaScript"), Some(Program::Node));
    assert_eq!(resolve_program("ruby"), None);
}

#[test]
fn unsupported_language_is_a_configuration_error() {
    let m = sample_manifest("ruby", vec![]);
    let r = build_launch_plan(&m, 8080, true);
    assert_eq!(
        r.err(),
        Some(ModuleError::Configuration(ConfigIssue::UnsupportedLanguage("ruby".to_string())))
    );
}

#[test]
fn missing_module_directory_is_a_configuration_error() {
    let m = sample_manifest("python", vec![]);
    let r = build_launch_plan(&m, 8080, false);
    assert_eq!(
        r.err(),
        Some(ModuleError::Configuration(ConfigIssue::MissingModuleDir("demo_module".to_string())))
    );
}

#[test]
fn unsupported_language_is_reported_before_missing_directory() {
    let m = sample_manifest("ruby", vec![]);
    let r = build_launch_plan(&m, 8080, false);
    assert_eq!(
        r.err(),
        Some(ModuleError::Configuration(ConfigIssue::UnsupportedLanguage("ruby".to_string())))
    );
}

#[test]
fn health_classification_is_a_prefix_check() {
    assert!(is_healthy_response("HTTP/1.1 200 OK\r\nContent-Length: 2\r\n\r\nok"));
    assert!(is_healthy_response("HTTP/1.1 204 No Content\r\n\r\n"));
    assert!(is_healthy_response("HTTP/1.0 200 OK\r\n\r\n"));
    assert!(!is_healthy_response("HTTP/1.1 503 Service Unavailable\r\n\r\n"));
    assert!(!is_healthy_response("HTTP/1.1 404 Not Found\r\n\r\n"));
    assert!(!is_healthy_response("HTTP/2 200\r\n\r\n"));
    assert!(!is_healthy_response(""));
}

#[test]
fn probe_request_has_the_exact_wire_format() {
    let wait = HealthWait::new(8080, Some("api/ping"));
    assert_eq!(wait.path, "/api/ping");
    assert_eq!(
        wait.probe_request(),
        "GET /api/ping HTTP/1.1\r\nHost: 127.0.0.1:8080\r\nConnection: close\r\n\r\n"
    );
}

#[test]
fn healthy_response_ends_the_wait() {
    let mut wait = HealthWait::new(8080, None);
    assert_eq!(wait.on_probe(Some("HTTP/1.1 200 OK\r\n\r\n")), ProbeVerdict::Healthy);
    assert_eq!(wait.attempts_done, 0);
}

#[test]
fn retry_budget_is_exhausted_after_twenty_failures() {
    let mut wait = HealthWait::new(8080, None);
    for attempt in 1..HEALTH_RETRY_COUNT {
        let verdict = wait.on_probe(Some("HTTP/1.1 503 Service Unavailable\r\n\r\n"));
        assert_eq!(verdict, ProbeVerdict::RetryAfterMs(HEALTH_RETRY_INTERVAL_MS));
        assert_eq!(wait.attempts_done, attempt);
    }
    let last = wait.on_probe(None);
    assert_eq!(
        last,
        ProbeVerdict::GiveUp(ModuleError::HealthTimeout {
            port: 8080,
            path: "/health".to_string(),
            attempts: HEALTH_RETRY_COUNT,
        })
    );
}

#[test]
fn connection_failure_counts_as_not_yet_healthy() {
    let mut wait = HealthWait::new(8080, Some("/status"));
    assert_eq!(wait.on_probe(None), ProbeVerdict::RetryAfterMs(HEALTH_RETRY_INTERVAL_MS));
    assert_eq!(wait.attempts_done, 1);
}

#[test]
fn decimal_rendering_and_trimming() {
    assert_eq!(u16_dec(0), "0");
    assert_eq!(u16_dec(8080), "8080");
    assert_eq!(u16_dec(65535), "65535");
    assert_eq!(trim_str("  spaced  "), "spaced");
    assert_eq!(trim_str(""), "");
    assert_eq!(trim_str(" \t\r\n"), "");
}
