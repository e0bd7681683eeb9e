//! The values that describe services, their live state, and errors.
use vstd::prelude::*;

verus! {

/// Whether a registered unit is running right now.
#[derive(Clone, Copy, Debug, PartialEq, Eq, Structural)]
pub enum ServiceStatus {
    Running,
    Stopped,
    Failed,
    Unknown,
    /// The unit is registered here but systemd does not know it.
    NotInstalled,
}

/// Whether systemd starts the unit automatically at boot.
///
/// This is independent from [`ServiceStatus`]: a service can be running
/// while disabled at boot, or stopped while enabled at boot.
#[derive(Clone, Copy, Debug, PartialEq, Eq, Structural)]
pub enum StartupState {
    Enabled,
    Disabled,
    /// The unit has no `[Install]` section and cannot be enabled or disabled.
    Static,
    /// The unit is masked and cannot be started or enabled until unmasked.
    Masked,
    Unknown,
}

/// A service the application may talk to systemd about.
#[derive(Clone, Copy, Debug, PartialEq, Eq)]
pub struct ServiceDefinition {
    pub id: &'static str,
    pub name: &'static str,
    pub unit: &'static str,
}

/// A service definition as text.
pub struct DefinitionView {
    pub id: Seq<char>,
    pub name: Seq<char>,
    pub unit: Seq<char>,
}

impl View for ServiceDefinition {
    type V = DefinitionView;

    open spec fn view(&self) -> DefinitionView {
        DefinitionView { id: self.id@, name: self.name@, unit: self.unit@ }
    }
}

/// The live systemd state of a registered service.
#[derive(Clone, Copy, Debug, PartialEq, Eq, Structural)]
pub struct ServiceState {
    pub status: ServiceStatus,
    pub startup: StartupState,
}

/// A snapshot of one service as the user interface shows it.
#[derive(Clone, Debug, PartialEq, Eq)]
pub struct Service {
    pub id: String,
    pub name: String,
    pub unit: String,
    pub status: ServiceStatus,
    pub startup: StartupState,
}

pub struct ServiceView {
    pub id: Seq<char>,
    pub name: Seq<char>,
    pub unit: Seq<char>,
    pub status: ServiceStatus,
    pub startup: StartupState,
}

impl View for Service {
    type V = ServiceView;

    open spec fn view(&self) -> ServiceView {
        ServiceView {
            id: self.id@,
            name: self.name@,
            unit: self.unit@,
            status: self.status,
            startup: self.startup,
        }
    }
}

/// The snapshot of `definition` in `state`.
pub open spec fn service_of(definition: DefinitionView, state: ServiceState) -> ServiceView {
    ServiceView {
        id: definition.id,
        name: definition.name,
        unit: definition.unit,
        status: state.status,
        startup: state.startup,
    }
}

/// The state of a registered unit that systemd does not know.
pub open spec fn not_installed_state() -> ServiceState {
    ServiceState { status: ServiceStatus::NotInstalled, startup: StartupState::Unknown }
}

impl Service {
    pub fn from_definition(definition: ServiceDefinition, state: ServiceState) -> (service: Self)
        ensures
            service@ == service_of(definition@, state),
    {
        Service {
            id: definition.id.to_owned(),
            name: definition.name.to_owned(),
            unit: definition.unit.to_owned(),
            status: state.status,
            startup: state.startup,
        }
    }

    pub fn not_installed(definition: ServiceDefinition) -> (service: Self)
        ensures
            service@ == service_of(definition@, not_installed_state()),
    {
        Self::from_definition(
            definition,
            ServiceState { status: ServiceStatus::NotInstalled, startup: StartupState::Unknown },
        )
    }
}

/// The kind of a failure, as the user interface distinguishes them.
#[derive(Clone, Copy, Debug, PartialEq, Eq, Structural)]
pub enum ErrorCode {
    UnknownService,
    UnitNotFound,
    PermissionDenied,
    AuthorizationCancelled,
    SystemdUnavailable,
    CommandFailed,
}

/// A structured failure.
#[derive(Clone, Debug, PartialEq, Eq)]
pub struct CommandError {
    pub code: ErrorCode,
    pub message: String,
    pub details: Option<String>,
}

pub struct ErrorView {
    pub code: ErrorCode,
    pub message: Seq<char>,
    pub details: Option<Seq<char>>,
}

pub open spec fn text_option(o: Option<String>) -> Option<Seq<char>> {
    match o {
        Some(s) => Some(s@),
        None => None,
    }
}

impl View for CommandError {
    type V = ErrorView;

    open spec fn view(&self) -> ErrorView {
        ErrorView { code: self.code, message: self.message@, details: text_option(self.details) }
    }
}

/// An error with a code and a message and no details.
pub open spec fn error_of(code: ErrorCode, message: Seq<char>) -> ErrorView {
    ErrorView { code, message, details: None }
}

/// `error` with `details` attached, unless `details` is empty.
pub open spec fn detailed(error: ErrorView, details: Seq<char>) -> ErrorView {
    if details.len() == 0 {
        error
    } else {
        ErrorView { details: Some(details), ..error }
    }
}

impl CommandError {
    pub fn new(code: ErrorCode, message: &str) -> (error: Self)
        ensures
            error@ == error_of(code, message@),
    {
        CommandError { code, message: message.to_owned(), details: None }
    }

    pub fn with_details(self, details: &str) -> (error: Self)
        ensures
            error@ == detailed(self@, details@),
    {
        let mut error = self;
        if !details.is_empty() {
            error.details = Some(details.to_owned());
        }
        error
    }
}

/// The outcome of one service inside a bulk operation.
#[derive(Clone, Debug, PartialEq, Eq)]
pub struct BulkServiceResult {
    pub service_id: String,
    pub name: String,
    pub success: bool,
    pub message: String,
    /// The refreshed service snapshot when the action succeeded.
    pub service: Option<Service>,
    /// The structured error when the action failed.
    pub error: Option<CommandError>,
}

pub struct BulkResultView {
    pub service_id: Seq<char>,
    pub name: Seq<char>,
    pub success: bool,
    pub message: Seq<char>,
    pub service: Option<ServiceView>,
    pub error: Option<ErrorView>,
}

pub open spec fn service_option(o: Option<Service>) -> Option<ServiceView> {
    match o {
        Some(s) => Some(s@),
        None => None,
    }
}

pub open spec fn error_option(o: Option<CommandError>) -> Option<ErrorView> {
    match o {
        Some(e) => Some(e@),
        None => None,
    }
}

impl View for BulkServiceResult {
    type V = BulkResultView;

    open spec fn view(&self) -> BulkResultView {
        BulkResultView {
            service_id: self.service_id@,
            name: self.name@,
            success: self.success,
            message: self.message@,
            service: service_option(self.service),
            error: error_option(self.error),
        }
    }
}

/// The row of a service on which the action succeeded.
pub open spec fn succeeded_row(service: ServiceView, message: Seq<char>) -> BulkResultView {
    BulkResultView {
        service_id: service.id,
        name: service.name,
        success: true,
        message,
        service: Some(service),
        error: None,
    }
}

/// The row of a service on which the action failed.
pub open spec fn failed_row(definition: DefinitionView, error: ErrorView) -> BulkResultView {
    BulkResultView {
        service_id: definition.id,
        name: definition.name,
        success: false,
        message: error.message,
        service: None,
        error: Some(error),
    }
}

impl BulkServiceResult {
    pub fn succeeded(service: Service, message: &str) -> (row: Self)
        ensures
            row@ == succeeded_row(service@, message@),
    {
        BulkServiceResult {
            service_id: service.id.clone(),
            name: service.name.clone(),
            success: true,
            message: message.to_owned(),
            service: Some(service),
            error: None,
        }
    }

    pub fn failed(definition: ServiceDefinition, error: CommandError) -> (row: Self)
        ensures
            row@ == failed_row(definition@, error@),
    {
        BulkServiceResult {
            service_id: definition.id.to_owned(),
            name: definition.name.to_owned(),
            success: false,
            message: error.message.clone(),
            service: None,
            error: Some(error),
        }
    }
}

} // verus!
