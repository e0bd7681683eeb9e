use batring::commands::{
    aborts_bulk, registered_services, resolve_service, service_from_inspection, BulkRun,
};
use batring::models::{
    BulkServiceResult, CommandError, ErrorCode, Service, ServiceDefinition, ServiceState,
    ServiceStatus, StartupState,
};
use batring::systemd::ServiceAction;

fn running(service: ServiceDefinition) -> Service {
    Service::from_definition(
        service,
        ServiceState {
            status: ServiceStatus::Running,
            startup: StartupState::Enabled,
        },
    )
}

fn failure(code: ErrorCode) -> CommandError {
    CommandError::new(code, "mocked failure")
}

/// Drives the bulk decisions with `apply` standing in for the real work.
fn perform_bulk_with<F>(action: ServiceAction, mut apply: F) -> Vec<BulkServiceResult>
where
    F: FnMut(ServiceDefinition) -> Result<Service, CommandError>,
{
    let mut run = BulkRun::new(action);
    while let Some(service) = run.next_service() {
        let outcome = apply(service);
        run.record(outcome);
    }
    run.results()
}

#[test]
fn resolves_postgresql_service() {
    let service = resolve_service("postgresql").expect("postgresql should be registered");
    assert_eq!(service.name, "PostgreSQL");
    assert_eq!(service.unit, "postgresql.service");
}

#[test]
fn resolves_docker_service() {
    let service = resolve_service("docker").expect("docker should be registered");
    assert_eq!(service.name, "Docker");
    assert_eq!(service.unit, "docker.service");
}

#[test]
fn resolves_mongodb_service_to_mongod_unit() {
    let service = resolve_service("mongodb").expect("mongodb should be registered");
    assert_eq!(service.name, "MongoDB");
    assert_eq!(service.unit, "mongod.service");
}

#[test]
fn keeps_registry_order() {
    let service_ids: Vec<_> = registered_services()
        .iter()
        .map(|service| service.id)
        .collect();
    assert_eq!(service_ids, ["postgresql", "docker", "mongodb"]);
}

#[test]
fn registry_ids_and_units_are_unique() {
    let services = registered_services();
    for (index, service) in services.iter().enumerate() {
        for other in &services[index + 1..] {
            assert_ne!(service.id, other.id, "duplicate id");
            assert_ne!(service.unit, other.unit, "duplicate unit");
        }
    }
}

#[test]
fn rejects_arbitrary_service_input() {
    for input in [
        "postgresql.service; reboot",
        "mongod.service",
        "mongod",
        "redis",
        "",
        "Docker",
    ] {
        let error = resolve_service(input).expect_err("arbitrary input should be rejected");
        assert_eq!(error.code, ErrorCode::UnknownService, "input {input:?}");
    }
}

#[test]
fn missing_unit_becomes_not_installed_instead_of_an_error() {
    let mongodb = resolve_service("mongodb").unwrap();
    let service = service_from_inspection(mongodb, Err(failure(ErrorCode::UnitNotFound))).unwrap();

    assert_eq!(service.status, ServiceStatus::NotInstalled);
    assert_eq!(service.startup, StartupState::Unknown);
    assert_eq!(service.unit, "mongod.service");
}

#[test]
fn other_inspection_errors_still_propagate() {
    let postgresql = resolve_service("postgresql").unwrap();
    let error = service_from_inspection(postgresql, Err(failure(ErrorCode::SystemdUnavailable)))
        .expect_err("systemd errors must surface");

    assert_eq!(error.code, ErrorCode::SystemdUnavailable);
}

#[test]
fn bulk_operations_touch_only_registered_services_in_order() {
    let mut seen = Vec::new();
    let results = perform_bulk_with(ServiceAction::Start, |service| {
        seen.push(service.id);
        Ok(running(service))
    });

    assert_eq!(seen, ["postgresql", "docker", "mongodb"]);
    assert_eq!(results.len(), registered_services().len());
    assert!(results.iter().all(|result| result.success));
    assert!(results.iter().all(|result| result.message == "Started"));
    assert!(results.iter().all(|result| result.service.is_some()));
}

#[test]
fn one_failure_does_not_stop_the_other_services() {
    let results = perform_bulk_with(ServiceAction::Start, |service| {
        if service.id == "docker" {
            Err(failure(ErrorCode::CommandFailed))
        } else {
            Ok(running(service))
        }
    });

    let outcomes: Vec<_> = results
        .iter()
        .map(|result| (result.service_id.as_str(), result.success))
        .collect();
    assert_eq!(
        outcomes,
        [("postgresql", true), ("docker", false), ("mongodb", true)]
    );

    let docker = &results[1];
    assert_eq!(docker.message, "mocked failure");
    assert_eq!(
        docker.error.as_ref().unwrap().code,
        ErrorCode::CommandFailed
    );
    assert!(docker.service.is_none());

    assert_eq!(results.iter().filter(|result| result.success).count(), 2);
    assert_eq!(results.iter().filter(|result| !result.success).count(), 1);
}

#[test]
fn a_missing_unit_in_a_bulk_operation_is_just_one_failed_row() {
    let results = perform_bulk_with(ServiceAction::Restart, |service| {
        if service.id == "mongodb" {
            Err(failure(ErrorCode::UnitNotFound))
        } else {
            Ok(running(service))
        }
    });

    assert_eq!(results[2].service_id, "mongodb");
    assert!(!results[2].success);
    assert_eq!(
        results[2].error.as_ref().unwrap().code,
        ErrorCode::UnitNotFound
    );
    assert!(results[0].success && results[1].success);
}

#[test]
fn cancelled_authorization_skips_the_remaining_services() {
    let mut attempts = 0;
    let results = perform_bulk_with(ServiceAction::Stop, |_| {
        attempts += 1;
        Err(failure(ErrorCode::AuthorizationCancelled))
    });

    assert_eq!(attempts, 1, "must not prompt again after a cancel");
    assert_eq!(results.len(), registered_services().len());
    assert!(results.iter().all(|result| !result.success));
    assert!(results
        .iter()
        .all(|result| result.error.as_ref().unwrap().code == ErrorCode::AuthorizationCancelled));
    assert_eq!(
        results[1].message,
        "Skipped because authorization did not succeed."
    );
}

#[test]
fn a_missing_polkit_agent_also_skips_the_remaining_services() {
    let mut attempts = 0;
    let results = perform_bulk_with(ServiceAction::Enable, |_| {
        attempts += 1;
        Err(failure(ErrorCode::PermissionDenied))
    });

    assert_eq!(attempts, 1, "a missing agent will not answer the next one");
    assert!(results.iter().all(|result| !result.success));
}

#[test]
fn ordinary_failures_never_abort_the_bulk_loop() {
    for code in [
        ErrorCode::CommandFailed,
        ErrorCode::UnitNotFound,
        ErrorCode::SystemdUnavailable,
        ErrorCode::UnknownService,
    ] {
        assert!(!aborts_bulk(code), "{code:?} must not stop the loop");
    }
    assert!(aborts_bulk(ErrorCode::AuthorizationCancelled));
    assert!(aborts_bulk(ErrorCode::PermissionDenied));
}

#[test]
fn every_service_is_still_attempted_when_failures_are_ordinary() {
    let mut attempts = 0;
    let results = perform_bulk_with(ServiceAction::Start, |_| {
        attempts += 1;
        Err(failure(ErrorCode::CommandFailed))
    });

    assert_eq!(attempts, registered_services().len());
    assert_eq!(results.len(), registered_services().len());
    assert!(results.iter().all(|result| !result.success));
}

#[test]
fn enable_and_disable_bulk_results_use_startup_wording() {
    let enabled = perform_bulk_with(ServiceAction::Enable, |service| Ok(running(service)));
    assert!(enabled
        .iter()
        .all(|result| result.message == "Startup enabled"));

    let disabled = perform_bulk_with(ServiceAction::Disable, |service| Ok(running(service)));
    assert!(disabled
        .iter()
        .all(|result| result.message == "Startup disabled"));
}
