//! The conversation with `systemctl`: which argument lists are handed to it,
//! and how what it prints is classified.
use vstd::prelude::*;
use vstd::string::*;

use crate::models::{
    detailed, error_of, CommandError, DefinitionView, ErrorCode, ErrorView, ServiceDefinition,
    ServiceState, ServiceStatus, StartupState,
};
use crate::text::{
    contains, decode_lossy, has_substring, lowercase, same_text, to_lower, trim, trimmed,
    utf8_lossy,
};

verus! {

/// The program every request is handed to.
pub const SYSTEMCTL: &'static str = "/usr/bin/systemctl";

/// A mutation that can be applied to a registered unit.
///
/// `Start`, `Stop`, and `Restart` change the current runtime state.
/// `Enable` and `Disable` only change whether the unit starts at boot;
/// they never start or stop the unit (`--now` is never passed).
#[derive(Clone, Copy, Debug, PartialEq, Eq, Structural)]
pub enum ServiceAction {
    Start,
    Stop,
    Restart,
    Enable,
    Disable,
}

/// The `systemctl` verb of an action.
pub open spec fn action_word(action: ServiceAction) -> Seq<char> {
    match action {
        ServiceAction::Start => "start"@,
        ServiceAction::Stop => "stop"@,
        ServiceAction::Restart => "restart"@,
        ServiceAction::Enable => "enable"@,
        ServiceAction::Disable => "disable"@,
    }
}

/// How an action in progress is described in messages.
pub open spec fn action_participle(action: ServiceAction) -> Seq<char> {
    match action {
        ServiceAction::Start => "starting"@,
        ServiceAction::Stop => "stopping"@,
        ServiceAction::Restart => "restarting"@,
        ServiceAction::Enable => "enabling startup for"@,
        ServiceAction::Disable => "disabling startup for"@,
    }
}

/// The short confirmation of a completed action.
pub open spec fn action_completed(action: ServiceAction) -> Seq<char> {
    match action {
        ServiceAction::Start => "Started"@,
        ServiceAction::Stop => "Stopped"@,
        ServiceAction::Restart => "Restarted"@,
        ServiceAction::Enable => "Startup enabled"@,
        ServiceAction::Disable => "Startup disabled"@,
    }
}

impl ServiceAction {
    pub fn systemctl_argument(self) -> (word: &'static str)
        ensures
            word@ == action_word(self),
    {
        match self {
            ServiceAction::Start => "start",
            ServiceAction::Stop => "stop",
            ServiceAction::Restart => "restart",
            ServiceAction::Enable => "enable",
            ServiceAction::Disable => "disable",
        }
    }

    pub fn present_participle(self) -> (words: &'static str)
        ensures
            words@ == action_participle(self),
    {
        match self {
            ServiceAction::Start => "starting",
            ServiceAction::Stop => "stopping",
            ServiceAction::Restart => "restarting",
            ServiceAction::Enable => "enabling startup for",
            ServiceAction::Disable => "disabling startup for",
        }
    }

    /// Short confirmation used in per-service bulk results.
    pub fn completed_message(self) -> (words: &'static str)
        ensures
            words@ == action_completed(self),
    {
        match self {
            ServiceAction::Start => "Started",
            ServiceAction::Stop => "Stopped",
            ServiceAction::Restart => "Restarted",
            ServiceAction::Enable => "Startup enabled",
            ServiceAction::Disable => "Startup disabled",
        }
    }
}

/// The exact argument vector of a mutation: the verb, then the unit.
pub open spec fn mutation_arguments(service: DefinitionView, action: ServiceAction) -> Seq<
    Seq<char>,
> {
    seq![action_word(action), service.unit]
}

/// The exact argument vector handed to `systemctl` for a mutation.
///
/// Every element is a constant from the registry or the action table, and no
/// shell is involved. `--no-ask-password` is deliberately absent: it would
/// disable interactive PolicyKit authorization.
pub fn action_arguments(service: ServiceDefinition, action: ServiceAction) -> (arguments: [&'static str; 2])
    ensures
        arguments@.len() == 2,
        arguments@[0]@ == mutation_arguments(service@, action)[0],
        arguments@[1]@ == mutation_arguments(service@, action)[1],
{
    [action.systemctl_argument(), service.unit]
}

/// What one run of `systemctl` produced.
#[derive(Clone, Debug, PartialEq, Eq)]
pub struct CommandOutput {
    /// The exit code, or `None` when the process was ended by a signal.
    pub exit_code: Option<i32>,
    pub stdout: Vec<u8>,
    pub stderr: Vec<u8>,
}

pub struct OutputView {
    pub exit_code: Option<i32>,
    pub stdout: Seq<u8>,
    pub stderr: Seq<u8>,
}

impl View for CommandOutput {
    type V = OutputView;

    open spec fn view(&self) -> OutputView {
        OutputView { exit_code: self.exit_code, stdout: self.stdout@, stderr: self.stderr@ }
    }
}

/// Termination is successful when the exit code is zero.
pub open spec fn exited_successfully(output: OutputView) -> bool {
    output.exit_code == Some(0i32)
}

impl CommandOutput {
    pub fn success(&self) -> (r: bool)
        ensures
            r == exited_successfully(self@),
    {
        match self.exit_code {
            Some(code) => code == 0,
            None => false,
        }
    }
}

/// What a run printed, read as text: both streams trimmed, plus both joined by
/// a line break and lowercased, which is what the classification searches.
pub struct OutputText {
    pub stdout: String,
    pub stderr: String,
    pub combined: String,
    pub success: bool,
}

pub struct TextView {
    pub stdout: Seq<char>,
    pub stderr: Seq<char>,
    pub combined: Seq<char>,
    pub success: bool,
}

impl View for OutputText {
    type V = TextView;

    open spec fn view(&self) -> TextView {
        TextView {
            stdout: self.stdout@,
            stderr: self.stderr@,
            combined: self.combined@,
            success: self.success,
        }
    }
}

pub open spec fn text_of(output: OutputView) -> TextView {
    let stdout = trimmed(utf8_lossy(output.stdout));
    let stderr = trimmed(utf8_lossy(output.stderr));
    TextView {
        stdout,
        stderr,
        combined: lowercase(stdout + "\n"@ + stderr),
        success: exited_successfully(output),
    }
}

pub fn read_output(output: &CommandOutput) -> (text: OutputText)
    ensures
        text@ == text_of(output@),
{
    let stdout = trim(decode_lossy(output.stdout.as_slice()).as_str());
    let stderr = trim(decode_lossy(output.stderr.as_slice()).as_str());
    let mut joined = stdout.clone();
    joined.append("\n");
    joined.append(stderr.as_str());
    let combined = to_lower(joined.as_str());
    OutputText { stdout, stderr, combined, success: output.success() }
}

/// Two texts joined.
fn join2(a: &str, b: &str) -> (s: String)
    ensures
        s@ == a@ + b@,
{
    let mut s = a.to_owned();
    s.append(b);
    s
}

/// Three texts joined.
fn join3(a: &str, b: &str, c: &str) -> (s: String)
    ensures
        s@ == a@ + b@ + c@,
{
    let mut s = join2(a, b);
    s.append(c);
    s
}

/// Five texts joined.
fn join5(a: &str, b: &str, c: &str, d: &str, e: &str) -> (s: String)
    ensures
        s@ == a@ + b@ + c@ + d@ + e@,
{
    let mut s = join3(a, b, c);
    s.append(d);
    s.append(e);
    s
}

/// systemd could not ask anyone, because interactive authorization was not
/// offered or no PolicyKit agent is registered for the session.
pub open spec fn mentions_no_auth_agent(text: Seq<char>) -> bool {
    ||| has_substring(text, "interactive authentication has not been enabled"@)
    ||| has_substring(text, "interactive authentication required"@)
    ||| has_substring(text, "no authentication agent"@)
}

/// Somebody was asked and the answer was no.
pub open spec fn mentions_refusal(text: Seq<char>) -> bool {
    ||| has_substring(text, "access denied"@)
    ||| has_substring(text, "not authorized"@)
    ||| has_substring(text, "permission denied"@)
    ||| has_substring(text, "authentication failed"@)
    ||| has_substring(text, "dismissed"@)
    ||| has_substring(text, "cancelled"@)
    ||| has_substring(text, "canceled"@)
}

pub open spec fn mentions_missing_unit(text: Seq<char>) -> bool {
    ||| has_substring(text, "could not be found"@)
    ||| has_substring(text, "not found"@)
    ||| has_substring(text, "not-found"@)
    ||| has_substring(text, "not loaded"@)
    ||| has_substring(text, "no such file or directory"@)
}

pub open spec fn mentions_no_systemd(text: Seq<char>) -> bool {
    ||| has_substring(text, "system has not been booted with systemd"@)
    ||| has_substring(text, "failed to connect to bus"@)
}

pub fn indicates_no_auth_agent(output: &str) -> (r: bool)
    ensures
        r == mentions_no_auth_agent(output@),
{
    contains(output, "interactive authentication has not been enabled") || contains(
        output,
        "interactive authentication required",
    ) || contains(output, "no authentication agent")
}

pub fn indicates_authorization_refused(output: &str) -> (r: bool)
    ensures
        r == mentions_refusal(output@),
{
    contains(output, "access denied") || contains(output, "not authorized") || contains(
        output,
        "permission denied",
    ) || contains(output, "authentication failed") || contains(output, "dismissed") || contains(
        output,
        "cancelled",
    ) || contains(output, "canceled")
}

pub fn indicates_missing_unit(output: &str) -> (r: bool)
    ensures
        r == mentions_missing_unit(output@),
{
    contains(output, "could not be found") || contains(output, "not found") || contains(
        output,
        "not-found",
    ) || contains(output, "not loaded") || contains(output, "no such file or directory")
}

pub fn indicates_no_systemd(output: &str) -> (r: bool)
    ensures
        r == mentions_no_systemd(output@),
{
    contains(output, "system has not been booted with systemd") || contains(
        output,
        "failed to connect to bus",
    )
}

/// The standard error text, or the standard output text when it is empty.
pub open spec fn preferred_output(stdout: Seq<char>, stderr: Seq<char>) -> Seq<char> {
    if stderr.len() != 0 {
        stderr
    } else {
        stdout
    }
}

pub fn non_empty_output(stdout: &str, stderr: &str) -> (chosen: String)
    ensures
        chosen@ == preferred_output(stdout@, stderr@),
{
    if !stderr.is_empty() {
        stderr.to_owned()
    } else {
        stdout.to_owned()
    }
}

pub open spec fn unit_not_found_error(service: DefinitionView) -> ErrorView {
    error_of(
        ErrorCode::UnitNotFound,
        service.name + " is not installed or its unit was not found."@,
    )
}

pub open spec fn systemd_unavailable_error() -> ErrorView {
    error_of(ErrorCode::SystemdUnavailable, "systemd is not available on this Linux system."@)
}

pub open spec fn spawn_error_of(program: Seq<char>, error: Seq<char>) -> ErrorView {
    detailed(error_of(ErrorCode::CommandFailed, "Could not run "@ + program + "."@), error)
}

pub fn unit_not_found(service: ServiceDefinition) -> (error: CommandError)
    ensures
        error@ == unit_not_found_error(service@),
{
    let message = join2(service.name, " is not installed or its unit was not found.");
    CommandError::new(ErrorCode::UnitNotFound, message.as_str())
}

pub fn systemd_unavailable() -> (error: CommandError)
    ensures
        error@ == systemd_unavailable_error(),
{
    CommandError::new(
        ErrorCode::SystemdUnavailable,
        "systemd is not available on this Linux system.",
    )
}

/// The failure to start `program` at all; `error` describes why.
pub fn spawn_error(program: &str, error: &str) -> (e: CommandError)
    ensures
        e@ == spawn_error_of(program@, error@),
{
    let message = join3("Could not run ", program, ".");
    CommandError::new(ErrorCode::CommandFailed, message.as_str()).with_details(error)
}

/// How `systemctl is-active` output is read.
pub open spec fn status_verdict(service: DefinitionView, text: TextView) -> Result<
    ServiceStatus,
    ErrorView,
> {
    if mentions_no_systemd(text.combined) {
        Err(detailed(systemd_unavailable_error(), text.stderr))
    } else if mentions_missing_unit(text.combined) {
        Err(detailed(unit_not_found_error(service), text.stderr))
    } else if text.stdout == "active"@ {
        Ok(ServiceStatus::Running)
    } else if text.stdout == "inactive"@ || text.stdout == "deactivating"@ {
        Ok(ServiceStatus::Stopped)
    } else if text.stdout == "failed"@ {
        Ok(ServiceStatus::Failed)
    } else if text.success {
        Ok(ServiceStatus::Unknown)
    } else {
        Err(
            detailed(
                error_of(
                    ErrorCode::CommandFailed,
                    "Could not read the status of "@ + service.name + "."@,
                ),
                preferred_output(text.stdout, text.stderr),
            ),
        )
    }
}

/// The startup state that `systemctl is-enabled` printed.
pub open spec fn startup_of(printed: Seq<char>) -> StartupState {
    if printed == "enabled"@ || printed == "enabled-runtime"@ || printed == "alias"@ || printed
        == "linked"@ || printed == "linked-runtime"@ {
        StartupState::Enabled
    } else if printed == "disabled"@ || printed == "indirect"@ {
        StartupState::Disabled
    } else if printed == "static"@ || printed == "generated"@ || printed == "transient"@ {
        StartupState::Static
    } else if printed == "masked"@ || printed == "masked-runtime"@ {
        StartupState::Masked
    } else {
        StartupState::Unknown
    }
}

/// How `systemctl is-enabled` output is read. The exit code plays no part:
/// `is-enabled` exits non-zero for disabled and masked units.
pub open spec fn startup_verdict(service: DefinitionView, text: TextView) -> Result<
    StartupState,
    ErrorView,
> {
    if mentions_no_systemd(text.combined) {
        Err(detailed(systemd_unavailable_error(), text.stderr))
    } else if mentions_missing_unit(text.combined) {
        Err(detailed(unit_not_found_error(service), text.stderr))
    } else {
        Ok(startup_of(text.stdout))
    }
}

/// How `systemctl show --property=LoadState --value` output is read.
pub open spec fn load_verdict(service: DefinitionView, text: TextView) -> Result<(), ErrorView> {
    if mentions_no_systemd(text.combined) {
        Err(detailed(systemd_unavailable_error(), text.stderr))
    } else if text.stdout == "not-found"@ || mentions_missing_unit(text.combined) {
        Err(detailed(unit_not_found_error(service), text.stderr))
    } else if text.success {
        Ok(())
    } else {
        Err(
            detailed(
                error_of(
                    ErrorCode::CommandFailed,
                    "Could not inspect the "@ + service.name + " systemd unit."@,
                ),
                preferred_output(text.stdout, text.stderr),
            ),
        )
    }
}

/// The message of a failed mutation: `lead`, what was being done, the service.
pub open spec fn while_message(lead: Seq<char>, action: ServiceAction, service: DefinitionView) -> Seq<
    char,
> {
    lead + action_participle(action) + " "@ + service.name + "."@
}

/// How a failed mutation is classified. The PolicyKit cases are told apart by
/// whether interactive authorization was available: no agent answering means
/// nobody was asked; a plain refusal means somebody was asked and said no.
pub open spec fn action_failure(service: DefinitionView, action: ServiceAction, text: TextView) -> ErrorView {
    if mentions_no_systemd(text.combined) {
        detailed(systemd_unavailable_error(), text.stderr)
    } else if mentions_no_auth_agent(text.combined) {
        detailed(
            error_of(
                ErrorCode::PermissionDenied,
                while_message("No PolicyKit authentication agent answered while "@, action, service),
            ),
            text.stderr,
        )
    } else if mentions_refusal(text.combined) {
        detailed(
            error_of(
                ErrorCode::AuthorizationCancelled,
                while_message("Authorization was cancelled or denied while "@, action, service),
            ),
            text.stderr,
        )
    } else if mentions_missing_unit(text.combined) {
        detailed(unit_not_found_error(service), text.stderr)
    } else {
        detailed(
            error_of(ErrorCode::CommandFailed, while_message("BatRing failed while "@, action, service)),
            preferred_output(text.stdout, text.stderr),
        )
    }
}

pub open spec fn result_view<T>(result: Result<T, CommandError>) -> Result<T, ErrorView> {
    match result {
        Ok(v) => Ok(v),
        Err(e) => Err(e@),
    }
}

pub fn classify_status_text(service: ServiceDefinition, text: &OutputText) -> (result: Result<
    ServiceStatus,
    CommandError,
>)
    ensures
        result_view(result) == status_verdict(service@, text@),
{
    if indicates_no_systemd(text.combined.as_str()) {
        return Err(systemd_unavailable().with_details(text.stderr.as_str()));
    }
    if indicates_missing_unit(text.combined.as_str()) {
        return Err(unit_not_found(service).with_details(text.stderr.as_str()));
    }
    let stdout = text.stdout.as_str();
    if same_text(stdout, "active") {
        Ok(ServiceStatus::Running)
    } else if same_text(stdout, "inactive") || same_text(stdout, "deactivating") {
        Ok(ServiceStatus::Stopped)
    } else if same_text(stdout, "failed") {
        Ok(ServiceStatus::Failed)
    } else if text.success {
        Ok(ServiceStatus::Unknown)
    } else {
        let message = join3("Could not read the status of ", service.name, ".");
        let details = non_empty_output(stdout, text.stderr.as_str());
        Err(CommandError::new(ErrorCode::CommandFailed, message.as_str()).with_details(details.as_str()))
    }
}

pub fn classify_status_output(service: ServiceDefinition, output: &CommandOutput) -> (result: Result<
    ServiceStatus,
    CommandError,
>)
    ensures
        result_view(result) == status_verdict(service@, text_of(output@)),
{
    classify_status_text(service, &read_output(output))
}

pub fn startup_from_text(printed: &str) -> (state: StartupState)
    ensures
        state == startup_of(printed@),
{
    if same_text(printed, "enabled") || same_text(printed, "enabled-runtime") || same_text(
        printed,
        "alias",
    ) || same_text(printed, "linked") || same_text(printed, "linked-runtime") {
        StartupState::Enabled
    } else if same_text(printed, "disabled") || same_text(printed, "indirect") {
        // `indirect` units are not enabled themselves but can be enabled.
        StartupState::Disabled
    } else if same_text(printed, "static") || same_text(printed, "generated") || same_text(
        printed,
        "transient",
    ) {
        StartupState::Static
    } else if same_text(printed, "masked") || same_text(printed, "masked-runtime") {
        StartupState::Masked
    } else {
        StartupState::Unknown
    }
}

pub fn classify_startup_text(service: ServiceDefinition, text: &OutputText) -> (result: Result<
    StartupState,
    CommandError,
>)
    ensures
        result_view(result) == startup_verdict(service@, text@),
{
    if indicates_no_systemd(text.combined.as_str()) {
        return Err(systemd_unavailable().with_details(text.stderr.as_str()));
    }
    if indicates_missing_unit(text.combined.as_str()) {
        return Err(unit_not_found(service).with_details(text.stderr.as_str()));
    }
    Ok(startup_from_text(text.stdout.as_str()))
}

pub fn classify_startup_output(service: ServiceDefinition, output: &CommandOutput) -> (result: Result<
    StartupState,
    CommandError,
>)
    ensures
        result_view(result) == startup_verdict(service@, text_of(output@)),
{
    classify_startup_text(service, &read_output(output))
}

pub fn classify_load_state_text(service: ServiceDefinition, text: &OutputText) -> (result: Result<
    (),
    CommandError,
>)
    ensures
        result_view(result) == load_verdict(service@, text@),
{
    if indicates_no_systemd(text.combined.as_str()) {
        return Err(systemd_unavailable().with_details(text.stderr.as_str()));
    }
    if same_text(text.stdout.as_str(), "not-found") || indicates_missing_unit(text.combined.as_str()) {
        return Err(unit_not_found(service).with_details(text.stderr.as_str()));
    }
    if text.success {
        Ok(())
    } else {
        let message = join3("Could not inspect the ", service.name, " systemd unit.");
        let details = non_empty_output(text.stdout.as_str(), text.stderr.as_str());
        Err(CommandError::new(ErrorCode::CommandFailed, message.as_str()).with_details(details.as_str()))
    }
}

pub fn classify_load_state_output(service: ServiceDefinition, output: &CommandOutput) -> (result:
    Result<(), CommandError>)
    ensures
        result_view(result) == load_verdict(service@, text_of(output@)),
{
    classify_load_state_text(service, &read_output(output))
}

pub fn classify_action_text(service: ServiceDefinition, action: ServiceAction, text: &OutputText) -> (error:
    CommandError)
    ensures
        error@ == action_failure(service@, action, text@),
{
    let combined = text.combined.as_str();
    let stderr = text.stderr.as_str();
    if indicates_no_systemd(combined) {
        return systemd_unavailable().with_details(stderr);
    }
    if indicates_no_auth_agent(combined) {
        let message = join5(
            "No PolicyKit authentication agent answered while ",
            action.present_participle(),
            " ",
            service.name,
            ".",
        );
        return CommandError::new(ErrorCode::PermissionDenied, message.as_str()).with_details(stderr);
    }
    if indicates_authorization_refused(combined) {
        let message = join5(
            "Authorization was cancelled or denied while ",
            action.present_participle(),
            " ",
            service.name,
            ".",
        );
        return CommandError::new(ErrorCode::AuthorizationCancelled, message.as_str()).with_details(
            stderr,
        );
    }
    if indicates_missing_unit(combined) {
        return unit_not_found(service).with_details(stderr);
    }
    let message = join5("BatRing failed while ", action.present_participle(), " ", service.name, ".");
    let details = non_empty_output(text.stdout.as_str(), stderr);
    CommandError::new(ErrorCode::CommandFailed, message.as_str()).with_details(details.as_str())
}

/// Turn a failed `systemctl` mutation into a structured error.
pub fn classify_action_error(service: ServiceDefinition, action: ServiceAction, output: &CommandOutput) -> (error:
    CommandError)
    ensures
        error@ == action_failure(service@, action, text_of(output@)),
{
    classify_action_text(service, action, &read_output(output))
}


/// What is asked of `systemctl` about a unit.
#[derive(Clone, Copy, Debug, PartialEq, Eq, Structural)]
pub enum Query {
    /// `show --property=LoadState --value`: does systemd know the unit?
    LoadState,
    /// `is-active`: the runtime status.
    ActiveState,
    /// `is-enabled`: the startup state.
    StartupState,
    /// A mutation; the only kind that needs authorization.
    Mutation(ServiceAction),
}

/// One run of `systemctl` that the application has to perform.
#[derive(Clone, Copy, Debug)]
pub struct Request {
    pub service: ServiceDefinition,
    pub query: Query,
}

pub struct RequestView {
    pub service: DefinitionView,
    pub query: Query,
}

impl View for Request {
    type V = RequestView;

    open spec fn view(&self) -> RequestView {
        RequestView { service: self.service@, query: self.query }
    }
}

/// The argument vector of a request, after the program name.
pub open spec fn request_arguments(request: RequestView) -> Seq<Seq<char>> {
    match request.query {
        Query::LoadState => seq![
            "show"@,
            "--property=LoadState"@,
            "--value"@,
            request.service.unit,
        ],
        Query::ActiveState => seq!["is-active"@, request.service.unit],
        Query::StartupState => seq!["is-enabled"@, request.service.unit],
        Query::Mutation(action) => mutation_arguments(request.service, action),
    }
}

impl Request {
    /// The arguments handed to [`SYSTEMCTL`]; no shell is involved.
    pub fn arguments(&self) -> (arguments: Vec<&'static str>)
        ensures
            arguments@.len() == request_arguments(self@).len(),
            forall|i: int|
                0 <= i < arguments@.len() ==> #[trigger] arguments@[i]@ == request_arguments(
                    self@,
                )[i],
    {
        let unit = self.service.unit;
        match self.query {
            Query::LoadState => vec!["show", "--property=LoadState", "--value", unit],
            Query::ActiveState => vec!["is-active", unit],
            Query::StartupState => vec!["is-enabled", unit],
            Query::Mutation(action) => {
                let pair = action_arguments(self.service, action);
                vec![pair[0], pair[1]]
            },
        }
    }
}

/// How a run of `systemctl` ended, as the application reports it back.
#[derive(Clone, Debug, PartialEq, Eq)]
pub enum SystemctlReply {
    /// The program ran and exited.
    Exited(CommandOutput),
    /// The program could not be started; the text says why.
    SpawnFailed(String),
}

pub enum ReplyView {
    Exited(OutputView),
    SpawnFailed(Seq<char>),
}

impl View for SystemctlReply {
    type V = ReplyView;

    open spec fn view(&self) -> ReplyView {
        match self {
            SystemctlReply::Exited(output) => ReplyView::Exited(output@),
            SystemctlReply::SpawnFailed(error) => ReplyView::SpawnFailed(error@),
        }
    }
}

/// The error for a `systemctl` that could not be started.
pub open spec fn spawn_failure(error: Seq<char>) -> ErrorView {
    spawn_error_of("systemctl"@, error)
}

/// Where a reading of a unit's state stands.
#[derive(Debug)]
pub enum InspectStage {
    /// Checking that systemd knows the unit.
    Load,
    /// Reading the runtime status.
    Active,
    /// Reading the startup state; the status is known.
    Startup(ServiceStatus),
    Done(Result<ServiceState, CommandError>),
}

pub enum InspectStageView {
    Load,
    Active,
    Startup(ServiceStatus),
    Done(Result<ServiceState, ErrorView>),
}

/// Reading the runtime status and startup state of a unit. Only unprivileged
/// queries are made; nothing is ever authorized.
#[derive(Debug)]
pub struct Inspection {
    pub service: ServiceDefinition,
    pub stage: InspectStage,
}

pub struct InspectionView {
    pub service: DefinitionView,
    pub stage: InspectStageView,
}

impl View for Inspection {
    type V = InspectionView;

    open spec fn view(&self) -> InspectionView {
        InspectionView {
            service: self.service@,
            stage: match self.stage {
                InspectStage::Load => InspectStageView::Load,
                InspectStage::Active => InspectStageView::Active,
                InspectStage::Startup(status) => InspectStageView::Startup(status),
                InspectStage::Done(result) => InspectStageView::Done(result_view(result)),
            },
        }
    }
}

/// The query a reading asks next, if it is not done.
pub open spec fn inspect_query(stage: InspectStageView) -> Option<Query> {
    match stage {
        InspectStageView::Load => Some(Query::LoadState),
        InspectStageView::Active => Some(Query::ActiveState),
        InspectStageView::Startup(_) => Some(Query::StartupState),
        InspectStageView::Done(_) => None,
    }
}

/// Where a reading goes on a reply.
pub open spec fn inspect_next(
    service: DefinitionView,
    stage: InspectStageView,
    reply: ReplyView,
) -> InspectStageView {
    match stage {
        InspectStageView::Done(result) => InspectStageView::Done(result),
        _ => match reply {
            ReplyView::SpawnFailed(error) => InspectStageView::Done(Err(spawn_failure(error))),
            ReplyView::Exited(output) => {
                let text = text_of(output);
                match stage {
                    InspectStageView::Load => match load_verdict(service, text) {
                        Ok(_) => InspectStageView::Active,
                        Err(e) => InspectStageView::Done(Err(e)),
                    },
                    InspectStageView::Active => match status_verdict(service, text) {
                        Ok(status) => InspectStageView::Startup(status),
                        Err(e) => InspectStageView::Done(Err(e)),
                    },
                    InspectStageView::Startup(status) => match startup_verdict(service, text) {
                        Ok(startup) => InspectStageView::Done(Ok(ServiceState { status, startup })),
                        Err(e) => InspectStageView::Done(Err(e)),
                    },
                    InspectStageView::Done(result) => InspectStageView::Done(result),
                }
            },
        },
    }
}

/// Read the runtime status and startup state of a unit: first whether
/// systemd knows it, then `is-active`, then `is-enabled`.
pub fn inspect(service: ServiceDefinition) -> (reading: Inspection)
    ensures
        reading@.service == service@,
        reading@.stage == InspectStageView::Load,
{
    Inspection { service, stage: InspectStage::Load }
}

impl Inspection {
    pub fn is_done(&self) -> (done: bool)
        ensures
            done == (self@.stage is Done),
    {
        match self.stage {
            InspectStage::Done(_) => true,
            _ => false,
        }
    }

    /// The next run of `systemctl` this reading needs, or `None` when done.
    pub fn request(&self) -> (request: Option<Request>)
        ensures
            match inspect_query(self@.stage) {
                Some(query) => request matches Some(r) && r@ == (RequestView {
                    service: self@.service,
                    query,
                }),
                None => request is None,
            },
    {
        let query = match self.stage {
            InspectStage::Load => Query::LoadState,
            InspectStage::Active => Query::ActiveState,
            InspectStage::Startup(_) => Query::StartupState,
            InspectStage::Done(_) => {
                return None;
            },
        };
        Some(Request { service: self.service, query })
    }

    /// Take the reply to the last request into account; once done, replies change nothing.
    pub fn resume(self, reply: SystemctlReply) -> (next: Self)
        ensures
            next@.service == self@.service,
            next@.stage == inspect_next(self@.service, self@.stage, reply@),
    {
        if self.is_done() {
            return self;
        }
        let service = self.service;
        let output = match reply {
            SystemctlReply::SpawnFailed(error) => {
                return Inspection {
                    service,
                    stage: InspectStage::Done(Err(spawn_error("systemctl", error.as_str()))),
                };
            },
            SystemctlReply::Exited(output) => output,
        };
        let text = read_output(&output);
        let next = match self.stage {
            InspectStage::Load => match classify_load_state_text(service, &text) {
                Ok(()) => InspectStage::Active,
                Err(e) => InspectStage::Done(Err(e)),
            },
            InspectStage::Active => match classify_status_text(service, &text) {
                Ok(status) => InspectStage::Startup(status),
                Err(e) => InspectStage::Done(Err(e)),
            },
            InspectStage::Startup(status) => match classify_startup_text(service, &text) {
                Ok(startup) => InspectStage::Done(Ok(ServiceState { status, startup })),
                Err(e) => InspectStage::Done(Err(e)),
            },
            InspectStage::Done(result) => InspectStage::Done(result),
        };
        Inspection { service, stage: next }
    }

    /// The reading's result, once it is done.
    pub fn outcome(self) -> (result: Option<Result<ServiceState, CommandError>>)
        ensures
            match self@.stage {
                InspectStageView::Done(r) => result matches Some(x) && result_view(x) == r,
                _ => result is None,
            },
    {
        match self.stage {
            InspectStage::Done(result) => Some(result),
            _ => None,
        }
    }
}

/// Where a mutation of a unit stands.
#[derive(Debug)]
pub enum ActionStage {
    /// Checking, without privileges, that systemd knows the unit.
    Load,
    /// Running the mutation itself.
    Mutate,
    Done(Result<(), CommandError>),
}

pub enum ActionStageView {
    Load,
    Mutate,
    Done(Result<(), ErrorView>),
}

/// Applying a mutation to a unit.
///
/// `systemctl` runs as the desktop user and forwards the request to systemd
/// over D-Bus, where PolicyKit authorizes it and may keep the authorization
/// for a short window. The unit is checked first with an unprivileged query,
/// so a missing unit fails fast without an authorization prompt.
#[derive(Debug)]
pub struct ActionRun {
    pub service: ServiceDefinition,
    pub action: ServiceAction,
    pub stage: ActionStage,
}

pub struct ActionRunView {
    pub service: DefinitionView,
    pub action: ServiceAction,
    pub stage: ActionStageView,
}

impl View for ActionRun {
    type V = ActionRunView;

    open spec fn view(&self) -> ActionRunView {
        ActionRunView {
            service: self.service@,
            action: self.action,
            stage: match self.stage {
                ActionStage::Load => ActionStageView::Load,
                ActionStage::Mutate => ActionStageView::Mutate,
                ActionStage::Done(result) => ActionStageView::Done(result_view(result)),
            },
        }
    }
}

pub open spec fn action_query(action: ServiceAction, stage: ActionStageView) -> Option<Query> {
    match stage {
        ActionStageView::Load => Some(Query::LoadState),
        ActionStageView::Mutate => Some(Query::Mutation(action)),
        ActionStageView::Done(_) => None,
    }
}

/// Where a mutation goes on a reply.
pub open spec fn action_next(
    service: DefinitionView,
    action: ServiceAction,
    stage: ActionStageView,
    reply: ReplyView,
) -> ActionStageView {
    match stage {
        ActionStageView::Done(result) => ActionStageView::Done(result),
        _ => match reply {
            ReplyView::SpawnFailed(error) => ActionStageView::Done(Err(spawn_failure(error))),
            ReplyView::Exited(output) => {
                let text = text_of(output);
                match stage {
                    ActionStageView::Load => match load_verdict(service, text) {
                        Ok(_) => ActionStageView::Mutate,
                        Err(e) => ActionStageView::Done(Err(e)),
                    },
                    ActionStageView::Mutate => if exited_successfully(output) {
                        ActionStageView::Done(Ok(()))
                    } else {
                        ActionStageView::Done(Err(action_failure(service, action, text)))
                    },
                    ActionStageView::Done(result) => ActionStageView::Done(result),
                }
            },
        },
    }
}

/// Apply `action` to a unit: first check that systemd knows it, then run the
/// mutation.
pub fn run_action(service: ServiceDefinition, action: ServiceAction) -> (run: ActionRun)
    ensures
        run@.service == service@,
        run@.action == action,
        run@.stage == ActionStageView::Load,
{
    ActionRun { service, action, stage: ActionStage::Load }
}

impl ActionRun {
    pub fn is_done(&self) -> (done: bool)
        ensures
            done == (self@.stage is Done),
    {
        match self.stage {
            ActionStage::Done(_) => true,
            _ => false,
        }
    }

    /// The next run of `systemctl` this mutation needs, or `None` when done.
    pub fn request(&self) -> (request: Option<Request>)
        ensures
            match action_query(self@.action, self@.stage) {
                Some(query) => request matches Some(r) && r@ == (RequestView {
                    service: self@.service,
                    query,
                }),
                None => request is None,
            },
    {
        let query = match self.stage {
            ActionStage::Load => Query::LoadState,
            ActionStage::Mutate => Query::Mutation(self.action),
            ActionStage::Done(_) => {
                return None;
            },
        };
        Some(Request { service: self.service, query })
    }

    /// Take the reply to the last request into account; once done, replies change nothing.
    pub fn resume(self, reply: SystemctlReply) -> (next: Self)
        ensures
            next@.service == self@.service,
            next@.action == self@.action,
            next@.stage == action_next(self@.service, self@.action, self@.stage, reply@),
    {
        if self.is_done() {
            return self;
        }
        let service = self.service;
        let action = self.action;
        let output = match reply {
            SystemctlReply::SpawnFailed(error) => {
                return ActionRun {
                    service,
                    action,
                    stage: ActionStage::Done(Err(spawn_error("systemctl", error.as_str()))),
                };
            },
            SystemctlReply::Exited(output) => output,
        };
        let next = match self.stage {
            ActionStage::Load => match classify_load_state_output(service, &output) {
                Ok(()) => ActionStage::Mutate,
                Err(e) => ActionStage::Done(Err(e)),
            },
            ActionStage::Mutate => if output.success() {
                ActionStage::Done(Ok(()))
            } else {
                ActionStage::Done(Err(classify_action_error(service, action, &output)))
            },
            ActionStage::Done(result) => ActionStage::Done(result),
        };
        ActionRun { service, action, stage: next }
    }

    /// The mutation's result, once it is done.
    pub fn outcome(self) -> (result: Option<Result<(), CommandError>>)
        ensures
            match self@.stage {
                ActionStageView::Done(r) => result matches Some(x) && result_view(x) == r,
                _ => result is None,
            },
    {
        match self.stage {
            ActionStage::Done(result) => Some(result),
            _ => None,
        }
    }
}

} // verus!
