use batring::commands::{
    get_service_status, get_services, registered_services, start_all_services, start_service,
    stop_service, ServiceTask, ServicesTask,
};
use batring::models::{
    BulkServiceResult, CommandError, ErrorCode, Service, ServiceDefinition, ServiceState,
    ServiceStatus, StartupState,
};
use batring::systemd::{
    classify_load_state_output, classify_status_output, inspect, read_output, run_action,
    spawn_error, CommandOutput, Query, Request, ServiceAction, SystemctlReply,
};
use batring::text::{contains, same_text, trim};

fn exited(code: i32, stdout: &str, stderr: &str) -> SystemctlReply {
    SystemctlReply::Exited(CommandOutput {
        exit_code: Some(code),
        stdout: stdout.as_bytes().to_vec(),
        stderr: stderr.as_bytes().to_vec(),
    })
}

const POSTGRESQL: ServiceDefinition = ServiceDefinition {
    id: "postgresql",
    name: "PostgreSQL",
    unit: "postgresql.service",
};

/// Runs a single-service task against scripted replies and records every
/// argument list it asked for.
fn drive(
    mut task: ServiceTask,
    replies: Vec<SystemctlReply>,
) -> (Result<Service, CommandError>, Vec<Vec<&'static str>>) {
    let mut asked = Vec::new();
    let mut replies = replies.into_iter();
    while let Some(request) = task.request() {
        asked.push(request.arguments());
        task = task.resume(replies.next().expect("a reply for every request"));
    }
    (task.outcome().expect("finished"), asked)
}

fn drive_listing(
    mut task: ServicesTask,
    replies: Vec<SystemctlReply>,
) -> (Result<Vec<Service>, CommandError>, usize) {
    let mut asked = 0;
    let mut replies = replies.into_iter();
    while let Some(_request) = task.request() {
        asked += 1;
        task = task.resume(replies.next().expect("a reply for every request"));
    }
    (task.outcome().expect("finished"), asked)
}

#[test]
fn a_missing_unit_fails_before_any_mutation_is_requested() {
    let (result, asked) = drive(start_service("mongodb".to_string()), vec![exited(0, "not-found\n", "")]);
    assert_eq!(asked, vec![vec!["show", "--property=LoadState", "--value", "mongod.service"]]);
    let error = result.expect_err("a missing unit is an error for a mutation");
    assert_eq!(error.code, ErrorCode::UnitNotFound);
    assert_eq!(error.message, "MongoDB is not installed or its unit was not found.");
    assert_eq!(error.details, None);
}

#[test]
fn a_successful_start_is_followed_by_a_fresh_reading() {
    let (result, asked) = drive(
        start_service("postgresql".to_string()),
        vec![
            exited(0, "loaded\n", ""),
            exited(0, "", ""),
            exited(0, "loaded\n", ""),
            exited(0, "active\n", ""),
            exited(1, "disabled\n", ""),
        ],
    );
    assert_eq!(
        asked,
        vec![
            vec!["show", "--property=LoadState", "--value", "postgresql.service"],
            vec!["start", "postgresql.service"],
            vec!["show", "--property=LoadState", "--value", "postgresql.service"],
            vec!["is-active", "postgresql.service"],
            vec!["is-enabled", "postgresql.service"],
        ]
    );
    let service = result.expect("started");
    assert_eq!(service.id, "postgresql");
    assert_eq!(service.name, "PostgreSQL");
    assert_eq!(service.unit, "postgresql.service");
    assert_eq!(service.status, ServiceStatus::Running);
    assert_eq!(service.startup, StartupState::Disabled);
}

#[test]
fn a_refused_stop_reports_the_refusal() {
    let (result, asked) = drive(
        stop_service("docker".to_string()),
        vec![exited(0, "loaded\n", ""), exited(1, "", "Failed to stop docker.service: Access denied")],
    );
    assert_eq!(asked.len(), 2);
    assert_eq!(asked[1], vec!["stop", "docker.service"]);
    let error = result.unwrap_err();
    assert_eq!(error.code, ErrorCode::AuthorizationCancelled);
    assert_eq!(error.message, "Authorization was cancelled or denied while stopping Docker.");
    assert_eq!(
        error.details.as_deref(),
        Some("Failed to stop docker.service: Access denied")
    );
}

#[test]
fn raw_unit_names_are_rejected_without_any_request() {
    let task = get_service_status("mongod.service".to_string());
    assert!(task.is_done());
    assert!(task.request().is_none());
    let error = task.outcome().unwrap().unwrap_err();
    assert_eq!(error.code, ErrorCode::UnknownService);
    assert_eq!(error.message, "The requested service is not registered in BatRing.");
}

#[test]
fn reading_a_missing_service_reports_it_as_not_installed() {
    let (result, asked) = drive(
        get_service_status("mongodb".to_string()),
        vec![exited(0, "not-found\n", "")],
    );
    assert_eq!(asked.len(), 1);
    let service = result.expect("a missing unit is no error for a reading");
    assert_eq!(service.status, ServiceStatus::NotInstalled);
    assert_eq!(service.startup, StartupState::Unknown);
    assert_eq!(service.unit, "mongod.service");
}

#[test]
fn readings_never_ask_for_a_mutation() {
    let mut task = get_service_status("docker".to_string());
    let replies = [exited(0, "loaded\n", ""), exited(3, "inactive\n", ""), exited(0, "static\n", "")];
    for reply in replies {
        let request: Request = task.request().unwrap();
        assert!(!matches!(request.query, Query::Mutation(_)));
        task = task.resume(reply);
    }
    let service = task.outcome().unwrap().unwrap();
    assert_eq!(service.status, ServiceStatus::Stopped);
    assert_eq!(service.startup, StartupState::Static);
}

#[test]
fn listing_reads_every_registered_service_in_order() {
    let mut replies = Vec::new();
    for (active, enabled) in [("active\n", "enabled\n"), ("failed\n", "masked\n")] {
        replies.push(exited(0, "loaded\n", ""));
        replies.push(exited(0, active, ""));
        replies.push(exited(0, enabled, ""));
    }
    replies.push(exited(0, "not-found\n", ""));
    let (result, asked) = drive_listing(get_services(), replies);
    assert_eq!(asked, 7);
    let services = result.unwrap();
    let ids: Vec<_> = services.iter().map(|s| s.id.as_str()).collect();
    assert_eq!(ids, ["postgresql", "docker", "mongodb"]);
    assert_eq!(services[0].status, ServiceStatus::Running);
    assert_eq!(services[1].status, ServiceStatus::Failed);
    assert_eq!(services[1].startup, StartupState::Masked);
    assert_eq!(services[2].status, ServiceStatus::NotInstalled);
}

#[test]
fn listing_stops_at_the_first_error() {
    let replies = vec![
        exited(0, "loaded\n", ""),
        exited(0, "active\n", ""),
        exited(0, "enabled\n", ""),
        SystemctlReply::SpawnFailed("No such file or directory (os error 2)".to_string()),
    ];
    let (result, asked) = drive_listing(get_services(), replies);
    assert_eq!(asked, 4);
    let error = result.unwrap_err();
    assert_eq!(error.code, ErrorCode::CommandFailed);
    assert_eq!(error.message, "Could not run systemctl.");
    assert_eq!(error.details.as_deref(), Some("No such file or directory (os error 2)"));
}

#[test]
fn a_bulk_start_stops_asking_after_a_refused_prompt() {
    let mut task = start_all_services();
    let mut replies = vec![
        exited(0, "loaded\n", ""),
        exited(1, "", "Error executing operation: Request dismissed"),
    ]
    .into_iter();
    let mut asked = 0;
    while task.request().is_some() {
        asked += 1;
        task = task.resume(replies.next().unwrap());
    }
    assert_eq!(asked, 2);
    let rows: Vec<BulkServiceResult> = task.outcome().unwrap();
    assert_eq!(rows.len(), registered_services().len());
    assert_eq!(rows[0].error.as_ref().unwrap().message, "Authorization was cancelled or denied while starting PostgreSQL.");
    assert_eq!(rows[1].service_id, "docker");
    assert_eq!(rows[2].message, "Skipped because authorization did not succeed.");
    assert!(rows.iter().all(|row| !row.success && row.service.is_none()));
}

#[test]
fn a_bulk_start_reports_every_service_on_success() {
    let mut task = start_all_services();
    let mut asked = 0;
    while let Some(request) = task.request() {
        asked += 1;
        let reply = match request.query {
            Query::LoadState => exited(0, "loaded\n", ""),
            Query::Mutation(_) => exited(0, "", ""),
            Query::ActiveState => exited(0, "active\n", ""),
            Query::StartupState => exited(0, "enabled\n", ""),
        };
        task = task.resume(reply);
    }
    assert_eq!(asked, 15);
    let rows = task.outcome().unwrap();
    let ids: Vec<_> = rows.iter().map(|row| row.service_id.as_str()).collect();
    assert_eq!(ids, ["postgresql", "docker", "mongodb"]);
    assert!(rows.iter().all(|row| row.success && row.message == "Started"));
    assert_eq!(rows[2].service.as_ref().unwrap().status, ServiceStatus::Running);
}

#[test]
fn with_details_ignores_empty_details() {
    let plain = CommandError::new(ErrorCode::CommandFailed, "failed").with_details("");
    assert_eq!(plain.details, None);
    let detailed = CommandError::new(ErrorCode::CommandFailed, "failed").with_details("why");
    assert_eq!(detailed.details.as_deref(), Some("why"));
    assert_eq!(detailed.message, "failed");
}

#[test]
fn a_bulk_row_copies_the_service_or_the_error() {
    let service = Service::from_definition(
        POSTGRESQL,
        ServiceState { status: ServiceStatus::Stopped, startup: StartupState::Enabled },
    );
    let row = BulkServiceResult::succeeded(service.clone(), "Stopped");
    assert_eq!(row.service_id, "postgresql");
    assert_eq!(row.name, "PostgreSQL");
    assert!(row.success);
    assert_eq!(row.service, Some(service));
    assert_eq!(row.error, None);

    let error = CommandError::new(ErrorCode::UnitNotFound, "gone");
    let row = BulkServiceResult::failed(POSTGRESQL, error.clone());
    assert!(!row.success);
    assert_eq!(row.message, "gone");
    assert_eq!(row.error, Some(error));
    assert_eq!(row.service, None);
}

#[test]
fn systemd_missing_is_reported_first() {
    let error = classify_status_output(
        POSTGRESQL,
        &CommandOutput {
            exit_code: Some(1),
            stdout: Vec::new(),
            stderr: b"System has not been booted with systemd as init system (PID 1). Can't operate.\nFailed to connect to bus: Host is down".to_vec(),
        },
    )
    .unwrap_err();
    assert_eq!(error.code, ErrorCode::SystemdUnavailable);
    assert_eq!(error.message, "systemd is not available on this Linux system.");
}

#[test]
fn unreadable_status_is_a_command_failure_with_the_output() {
    let error = classify_status_output(
        POSTGRESQL,
        &CommandOutput { exit_code: Some(1), stdout: b"weird\n".to_vec(), stderr: Vec::new() },
    )
    .unwrap_err();
    assert_eq!(error.code, ErrorCode::CommandFailed);
    assert_eq!(error.message, "Could not read the status of PostgreSQL.");
    assert_eq!(error.details.as_deref(), Some("weird"));

    let unknown = classify_status_output(
        POSTGRESQL,
        &CommandOutput { exit_code: Some(0), stdout: b"weird\n".to_vec(), stderr: Vec::new() },
    );
    assert_eq!(unknown, Ok(ServiceStatus::Unknown));
}

#[test]
fn a_failed_load_state_query_is_a_command_failure() {
    let error = classify_load_state_output(
        POSTGRESQL,
        &CommandOutput { exit_code: Some(1), stdout: Vec::new(), stderr: b"Unexpected reply".to_vec() },
    )
    .unwrap_err();
    assert_eq!(error.code, ErrorCode::CommandFailed);
    assert_eq!(error.message, "Could not inspect the PostgreSQL systemd unit.");
    assert_eq!(error.details.as_deref(), Some("Unexpected reply"));
}

#[test]
fn output_is_matched_without_regard_to_case() {
    let error = batring::systemd::classify_action_error(
        POSTGRESQL,
        ServiceAction::Restart,
        &CommandOutput { exit_code: Some(1), stdout: Vec::new(), stderr: b"ACCESS DENIED".to_vec() },
    );
    assert_eq!(error.code, ErrorCode::AuthorizationCancelled);
    assert_eq!(error.details.as_deref(), Some("ACCESS DENIED"));
}

#[test]
fn output_text_is_decoded_trimmed_and_lowercased() {
    let text = read_output(&CommandOutput {
        exit_code: None,
        stdout: b"  Active\t\n".to_vec(),
        stderr: vec![b'E', 0xff, b' '],
    });
    assert_eq!(text.stdout, "Active");
    assert_eq!(text.stderr, "E\u{fffd}");
    assert_eq!(text.combined, "active\ne\u{fffd}");
    assert!(!text.success);
}

#[test]
fn a_process_ended_by_a_signal_is_not_a_success() {
    let output = CommandOutput { exit_code: None, stdout: Vec::new(), stderr: Vec::new() };
    assert!(!output.success());
    let output = CommandOutput { exit_code: Some(0), stdout: Vec::new(), stderr: Vec::new() };
    assert!(output.success());
}

#[test]
fn an_action_run_that_cannot_start_systemctl_ends_with_a_spawn_error() {
    let run = run_action(POSTGRESQL, ServiceAction::Enable);
    assert_eq!(run.request().unwrap().arguments(), vec!["show", "--property=LoadState", "--value", "postgresql.service"]);
    let run = run.resume(exited(0, "loaded\n", ""));
    assert_eq!(run.request().unwrap().arguments(), vec!["enable", "postgresql.service"]);
    let run = run.resume(SystemctlReply::SpawnFailed("permission denied".to_string()));
    assert!(run.is_done());
    let error = run.outcome().unwrap().unwrap_err();
    assert_eq!(error, spawn_error("systemctl", "permission denied"));
    assert_eq!(error.message, "Could not run systemctl.");
}

#[test]
fn an_inspection_reads_status_then_startup() {
    let reading = inspect(POSTGRESQL);
    let reading = reading.resume(exited(0, "loaded\n", ""));
    let reading = reading.resume(exited(3, "deactivating\n", ""));
    assert_eq!(reading.request().unwrap().arguments(), vec!["is-enabled", "postgresql.service"]);
    let reading = reading.resume(exited(0, "linked-runtime\n", ""));
    assert_eq!(
        reading.outcome(),
        Some(Ok(ServiceState { status: ServiceStatus::Stopped, startup: StartupState::Enabled }))
    );
}

#[test]
fn startup_state_ignores_the_exit_code() {
    for code in [0, 1, 3] {
        let result = batring::systemd::classify_startup_output(
            POSTGRESQL,
            &CommandOutput { exit_code: Some(code), stdout: b"disabled\n".to_vec(), stderr: Vec::new() },
        );
        assert_eq!(result, Ok(StartupState::Disabled));
    }
}

#[test]
fn text_helpers_behave_like_std() {
    assert!(contains("unit not found.", "not found"));
    assert!(!contains("not-foun", "not-found"));
    assert!(contains("anything", ""));
    assert!(same_text("active", "active"));
    assert!(!same_text("active", "inactive"));
    assert_eq!(trim("\u{a0} x y \n"), "x y");
    assert_eq!(trim(" \t "), "");
}

#[test]
fn white_space_is_what_std_calls_white_space() {
    for code in 0..=0x10ffffu32 {
        if let Some(c) = char::from_u32(code) {
            assert_eq!(batring::text::is_white_space(c), c.is_whitespace(), "U+{code:04X}");
        }
    }
}
