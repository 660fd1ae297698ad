//! Lifecycle behaviour of the supervisor: idempotent start, detected-exit
//! relaunch, stop semantics, and the configuration gates.

use module_supervisor::error::{ConfigIssue, ModuleError};
use module_supervisor::manifest::{BackendConfig, Manifest, UiConfig};
use module_supervisor::registry::{ManagedProcess, Registry};
use module_supervisor::supervisor::{
    on_liveness, start_gate, stop_ack, stop_remove, Liveness, StartDecision,
};

fn sample_manifest(enabled: bool, language: &str) -> Manifest {
    Manifest {
        id: "demo_module".to_string(),
        name: "Demo".to_string(),
        version: "1.0.0".to_string(),
        description: None,
        author: None,
        icon: None,
        backend: BackendConfig {
            enabled,
            language: language.to_string(),
            entrypoint: "main.py".to_string(),
            args: vec!["--port".to_string(), "{PORT}".to_string()],
            port: 8000,
            health_check: None,
        },
        ui: UiConfig { mode: "declarative".to_string(), layout: None },
        permissions: None,
    }
}

#[test]
fn start_is_idempotent_while_alive() {
    let mut reg = Registry::new();
    reg.insert("demo_module", ManagedProcess { pid: 41, port: 8080 });

    let first = on_liveness(&mut reg, "demo_module", Liveness::Alive);
    let second = on_liveness(&mut reg, "demo_module", Liveness::Alive);

    assert_eq!(first, StartDecision::Reuse(41, 8080));
    assert_eq!(second, StartDecision::Reuse(41, 8080));
    assert_eq!(reg.len(), 1);
    assert_eq!(reg.get("demo_module"), Some(ManagedProcess { pid: 41, port: 8080 }));
}

#[test]
fn detected_exit_evicts_and_relaunches() {
    let mut reg = Registry::new();
    reg.insert("demo_module", ManagedProcess { pid: 41, port: 8080 });

    let decision = on_liveness(&mut reg, "demo_module", Liveness::Exited);
    assert_eq!(decision, StartDecision::Relaunch);
    assert_eq!(reg.get("demo_module"), None);

    // The relaunch registers a fresh process with a new pid.
    reg.insert("demo_module", ManagedProcess { pid: 42, port: 8081 });
    assert_eq!(reg.get("demo_module"), Some(ManagedProcess { pid: 42, port: 8081 }));
    assert_eq!(reg.len(), 1);
}

#[test]
fn failed_liveness_check_fails_without_eviction() {
    let mut reg = Registry::new();
    reg.insert("demo_module", ManagedProcess { pid: 41, port: 8080 });

    let decision =
        on_liveness(&mut reg, "demo_module", Liveness::StatusUnknown("broken".to_string()));
    assert_eq!(decision, StartDecision::Fail(ModuleError::StatusCheck("broken".to_string())));
    assert_eq!(reg.get("demo_module"), Some(ManagedProcess { pid: 41, port: 8080 }));
}

#[test]
fn stop_removes_state_and_second_stop_fails() {
    let mut reg = Registry::new();
    reg.insert("demo_module", ManagedProcess { pid: 41, port: 8080 });

    let first = stop_remove(&mut reg, "demo_module");
    assert_eq!(first, Ok(ManagedProcess { pid: 41, port: 8080 }));
    assert_eq!(reg.get("demo_module"), None);

    let second = stop_remove(&mut reg, "demo_module");
    assert_eq!(second, Err(ModuleError::NotFound("demo_module".to_string())));

    // A subsequent start finds nothing to reuse and registers afresh.
    assert_eq!(reg.get("demo_module"), None);
    reg.insert("demo_module", ManagedProcess { pid: 77, port: 9000 });
    assert_eq!(reg.get("demo_module"), Some(ManagedProcess { pid: 77, port: 9000 }));
}

#[test]
fn stop_leaves_other_modules_untouched() {
    let mut reg = Registry::new();
    reg.insert("alpha", ManagedProcess { pid: 1, port: 7001 });
    reg.insert("beta", ManagedProcess { pid: 2, port: 7002 });

    assert_eq!(stop_remove(&mut reg, "alpha"), Ok(ManagedProcess { pid: 1, port: 7001 }));
    assert_eq!(reg.get("beta"), Some(ManagedProcess { pid: 2, port: 7002 }));
    assert_eq!(reg.len(), 1);
}

#[test]
fn registry_insert_replaces_existing_entry() {
    let mut reg = Registry::new();
    reg.insert("alpha", ManagedProcess { pid: 1, port: 7001 });
    reg.insert("alpha", ManagedProcess { pid: 3, port: 7003 });
    assert_eq!(reg.len(), 1);
    assert_eq!(reg.get("alpha"), Some(ManagedProcess { pid: 3, port: 7003 }));
}

#[test]
fn disabled_backend_fails_immediately() {
    let m = sample_manifest(false, "python");
    let gate = start_gate(&m);
    assert_eq!(gate, Err(ModuleError::Configuration(ConfigIssue::BackendDisabled)));
}

#[test]
fn enabled_backend_passes_the_gate() {
    let m = sample_manifest(true, "python");
    assert_eq!(start_gate(&m), Ok(()));
}

#[test]
fn stop_ack_names_the_module() {
    assert_eq!(stop_ack("demo_module"), "module demo_module stopped");
}

#[test]
fn error_messages_are_descriptive() {
    assert_eq!(
        ModuleError::Configuration(ConfigIssue::BackendDisabled).message(),
        "module backend is not enabled"
    );
    assert_eq!(
        ModuleError::Configuration(ConfigIssue::UnsupportedLanguage("ruby".to_string())).message(),
        "unsupported backend language: ruby"
    );
    assert_eq!(
        ModuleError::Configuration(ConfigIssue::MissingModuleDir("demo_module".to_string()))
            .message(),
        "module directory does not exist: demo_module"
    );
    assert_eq!(
        ModuleError::Launch("no such file".to_string()).message(),
        "failed to spawn process: no such file"
    );
    assert_eq!(
        ModuleError::HealthTimeout { port: 8080, path: "/health".to_string(), attempts: 20 }
            .message(),
        "health endpoint still unreachable after 20 attempts: http://127.0.0.1:8080/health"
    );
    assert_eq!(ModuleError::Lock.message(), "registry lock could not be acquired");
    assert_eq!(
        ModuleError::NotFound("demo_module".to_string()).message(),
        "no running module found: demo_module"
    );
    assert_eq!(
        ModuleError::Termination { id: "demo_module".to_string(), detail: "denied".to_string() }
            .message(),
        "failed to stop module demo_module: denied"
    );
    assert_eq!(
        ModuleError::StatusCheck("broken".to_string()).message(),
        "failed to check process status: broken"
    );
}
