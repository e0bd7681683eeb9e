use batring::models::{ErrorCode, ServiceDefinition, ServiceStatus, StartupState};
use batring::systemd::{
    action_arguments, classify_action_error, classify_load_state_output, classify_startup_output,
    classify_status_output, CommandOutput, ServiceAction, SYSTEMCTL,
};

const POSTGRESQL: ServiceDefinition = ServiceDefinition {
    id: "postgresql",
    name: "PostgreSQL",
    unit: "postgresql.service",
};

const MONGODB: ServiceDefinition = ServiceDefinition {
    id: "mongodb",
    name: "MongoDB",
    unit: "mongod.service",
};

/// The exact text systemd emits when no PolicyKit agent can be consulted,
/// captured from `systemctl --no-ask-password stop docker.service`.
const NO_AGENT_STDERR: &str = "Failed to stop docker.service: Access denied as the requested operation \
requires interactive authentication. However, interactive authentication \
has not been enabled by the calling program.\n\
See system logs and 'systemctl status docker.service' for details.";

fn output(code: i32, stdout: &str, stderr: &str) -> CommandOutput {
    CommandOutput {
        exit_code: Some(code),
        stdout: stdout.as_bytes().to_vec(),
        stderr: stderr.as_bytes().to_vec(),
    }
}

#[test]
fn maps_active_to_running() {
    let result = classify_status_output(POSTGRESQL, &output(0, "active\n", ""));
    assert_eq!(result, Ok(ServiceStatus::Running));
}

#[test]
fn maps_not_found_load_state_to_structured_error() {
    let result = classify_load_state_output(POSTGRESQL, &output(0, "not-found\n", ""));
    assert_eq!(
        result.expect_err("expected an error").code,
        ErrorCode::UnitNotFound
    );
}

#[test]
fn maps_inactive_exit_code_to_stopped() {
    let result = classify_status_output(POSTGRESQL, &output(3, "inactive\n", ""));
    assert_eq!(result, Ok(ServiceStatus::Stopped));
}

#[test]
fn maps_failed_to_failed() {
    let result = classify_status_output(POSTGRESQL, &output(3, "failed\n", ""));
    assert_eq!(result, Ok(ServiceStatus::Failed));
}

#[test]
fn reports_missing_units_as_structured_errors() {
    let result = classify_status_output(
        POSTGRESQL,
        &output(
            4,
            "unknown\n",
            "Unit postgresql.service could not be found.",
        ),
    );

    assert_eq!(
        result.expect_err("expected an error").code,
        ErrorCode::UnitNotFound
    );
}

#[test]
fn maps_is_enabled_output_to_startup_state() {
    let cases = [
        (0, "enabled\n", StartupState::Enabled),
        (0, "enabled-runtime\n", StartupState::Enabled),
        (0, "alias\n", StartupState::Enabled),
        (1, "disabled\n", StartupState::Disabled),
        (0, "indirect\n", StartupState::Disabled),
        (0, "static\n", StartupState::Static),
        (0, "generated\n", StartupState::Static),
        (1, "masked\n", StartupState::Masked),
        (0, "something-new\n", StartupState::Unknown),
    ];

    for (code, stdout, expected) in cases {
        let result = classify_startup_output(POSTGRESQL, &output(code, stdout, ""));
        assert_eq!(result, Ok(expected), "is-enabled printed {stdout:?}");
    }
}

#[test]
fn missing_unit_in_is_enabled_is_a_structured_error() {
    // Observed for an uninstalled MongoDB: exit 4, stdout "not-found".
    let result = classify_startup_output(MONGODB, &output(4, "not-found\n", ""));
    assert_eq!(
        result.expect_err("expected an error").code,
        ErrorCode::UnitNotFound
    );
}

#[test]
fn action_arguments_are_fixed() {
    assert_eq!(ServiceAction::Start.systemctl_argument(), "start");
    assert_eq!(ServiceAction::Stop.systemctl_argument(), "stop");
    assert_eq!(ServiceAction::Restart.systemctl_argument(), "restart");
    assert_eq!(ServiceAction::Enable.systemctl_argument(), "enable");
    assert_eq!(ServiceAction::Disable.systemctl_argument(), "disable");
}

#[test]
fn mutations_run_systemctl_directly_without_pkexec() {
    // The D-Bus path is what makes PolicyKit's auth_admin_keep caching
    // apply. Going through pkexec would re-prompt on every action.
    assert_eq!(
        action_arguments(MONGODB, ServiceAction::Restart),
        ["restart", "mongod.service"]
    );
    assert!(!SYSTEMCTL.contains("pkexec"));
}

#[test]
fn mutations_never_disable_interactive_authorization() {
    // `--no-ask-password` would suppress the PolicyKit prompt entirely and
    // make every mutation fail with "Access denied".
    for action in [
        ServiceAction::Start,
        ServiceAction::Stop,
        ServiceAction::Restart,
        ServiceAction::Enable,
        ServiceAction::Disable,
    ] {
        let arguments = action_arguments(POSTGRESQL, action);
        assert_eq!(arguments.len(), 2);
        assert!(arguments.iter().all(|argument| !argument.starts_with("--")));
    }
}

#[test]
fn enable_and_disable_never_touch_runtime_state() {
    // `systemctl enable --now` would also start the unit and
    // `systemctl disable --now` would also stop it.
    for action in [ServiceAction::Enable, ServiceAction::Disable] {
        let arguments = action_arguments(POSTGRESQL, action);
        assert!(!arguments.contains(&"--now"));
        assert!(!arguments.contains(&"start"));
        assert!(!arguments.contains(&"stop"));
    }
}

#[test]
fn reports_a_missing_polkit_agent_as_permission_denied() {
    let error = classify_action_error(
        POSTGRESQL,
        ServiceAction::Stop,
        &output(1, "", NO_AGENT_STDERR),
    );

    assert_eq!(error.code, ErrorCode::PermissionDenied);
    assert!(error.message.contains("No PolicyKit authentication agent"));
}

#[test]
fn reports_a_refused_prompt_as_cancelled() {
    // Interaction was offered and the answer was no, so systemd reports a
    // bare "Access denied" with no "interactive authentication" clause.
    let error = classify_action_error(
        POSTGRESQL,
        ServiceAction::Start,
        &output(1, "", "Failed to start postgresql.service: Access denied"),
    );

    assert_eq!(error.code, ErrorCode::AuthorizationCancelled);
}

#[test]
fn reports_a_dismissed_prompt_as_cancelled() {
    let error = classify_action_error(
        POSTGRESQL,
        ServiceAction::Start,
        &output(1, "", "Error executing operation: Request dismissed"),
    );

    assert_eq!(error.code, ErrorCode::AuthorizationCancelled);
}

#[test]
fn recognises_the_unit_not_found_message_systemctl_actually_prints() {
    // Captured from `systemctl start` on a unit that does not exist.
    let error = classify_action_error(
        MONGODB,
        ServiceAction::Start,
        &output(
            5,
            "",
            "Failed to start mongod.service: Unit mongod.service not found.",
        ),
    );

    assert_eq!(error.code, ErrorCode::UnitNotFound);
}

#[test]
fn authorization_failures_are_not_mistaken_for_missing_units() {
    // The no-agent message mentions neither "not found" nor "not-found",
    // but it is checked first regardless so ordering cannot regress.
    let error = classify_action_error(
        MONGODB,
        ServiceAction::Enable,
        &output(1, "", NO_AGENT_STDERR),
    );

    assert_eq!(error.code, ErrorCode::PermissionDenied);
}

#[test]
fn enable_errors_describe_startup_not_runtime() {
    let error = classify_action_error(
        POSTGRESQL,
        ServiceAction::Enable,
        &output(1, "", "Failed to enable unit: File exists"),
    );

    assert_eq!(error.code, ErrorCode::CommandFailed);
    assert!(error.message.contains("enabling startup for PostgreSQL"));
}

#[test]
fn sysv_synchronisation_noise_does_not_change_classification() {
    // `systemctl enable postgresql.service` prints SysV chatter on stdout
    // before the real failure arrives on stderr.
    let error = classify_action_error(
        POSTGRESQL,
        ServiceAction::Enable,
        &output(
            1,
            "Synchronizing state of postgresql.service with SysV service script.",
            "Failed to enable unit: Access denied",
        ),
    );

    assert_eq!(error.code, ErrorCode::AuthorizationCancelled);
}
