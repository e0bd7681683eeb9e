//! Properties of how what `systemctl` prints is read, stated over the literal
//! words and phrases it prints.
use vstd::prelude::*;

use crate::commands::{
    aborts, acting_task, bulk_next, bulk_well_formed, reading_task, registry, snapshot, task_next,
    BulkTaskView, ServiceTaskView,
};
use crate::models::{
    failed_row, DefinitionView, ErrorCode, ErrorView, ServiceState, ServiceStatus, ServiceView,
    StartupState,
};
use crate::systemd::{
    action_completed, action_failure, action_next, action_participle, action_word, inspect_next,
    load_verdict, request_arguments, startup_of, startup_verdict, status_verdict, text_of,
    ActionRunView, ActionStageView, InspectStageView, OutputView, Query, ReplyView, RequestView,
    ServiceAction, TextView,
};
use crate::text::{has_substring, occurs_at};

verus! {

/// A pattern occurs in a text exactly when the text is something, the
/// pattern, then something.
pub proof fn law_substring_is_an_infix(text: Seq<char>, pattern: Seq<char>)
    ensures
        has_substring(text, pattern) <==> exists|a: Seq<char>, b: Seq<char>| text == a + pattern
            + b,
{
    if has_substring(text, pattern) {
        let i = choose|i: int| #[trigger] occurs_at(text, pattern, i);
        let a = text.subrange(0, i);
        let b = text.subrange(i + pattern.len(), text.len() as int);
        assert(text =~= a + pattern + b);
    }
    if exists|a: Seq<char>, b: Seq<char>| text == a + pattern + b {
        let (a, b) = choose|a: Seq<char>, b: Seq<char>| text == a + pattern + b;
        assert(text.subrange(a.len() as int, (a.len() + pattern.len()) as int) =~= pattern);
        assert(occurs_at(text, pattern, a.len() as int));
    }
}

/// The combined text says systemd cannot be reached.
pub open spec fn says_no_systemd(combined: Seq<char>) -> bool {
    ||| has_substring(combined, "system has not been booted with systemd"@)
    ||| has_substring(combined, "failed to connect to bus"@)
}

/// The combined text says no PolicyKit agent could be asked.
pub open spec fn says_no_agent(combined: Seq<char>) -> bool {
    ||| has_substring(combined, "interactive authentication has not been enabled"@)
    ||| has_substring(combined, "interactive authentication required"@)
    ||| has_substring(combined, "no authentication agent"@)
}

/// The combined text says an authorization was refused.
pub open spec fn says_refused(combined: Seq<char>) -> bool {
    ||| has_substring(combined, "access denied"@)
    ||| has_substring(combined, "not authorized"@)
    ||| has_substring(combined, "permission denied"@)
    ||| has_substring(combined, "authentication failed"@)
    ||| has_substring(combined, "dismissed"@)
    ||| has_substring(combined, "cancelled"@)
    ||| has_substring(combined, "canceled"@)
}

/// The combined text says the unit is missing.
pub open spec fn says_missing_unit(combined: Seq<char>) -> bool {
    ||| has_substring(combined, "could not be found"@)
    ||| has_substring(combined, "not found"@)
    ||| has_substring(combined, "not-found"@)
    ||| has_substring(combined, "not loaded"@)
    ||| has_substring(combined, "no such file or directory"@)
}

/// The details attached to an error: the text when there is any.
pub open spec fn details_of(text: Seq<char>) -> Option<Seq<char>> {
    if text.len() == 0 {
        None
    } else {
        Some(text)
    }
}

/// The verbs, descriptions and confirmations of the five actions.
pub proof fn law_action_wording()
    ensures
        action_word(ServiceAction::Start) == "start"@,
        action_word(ServiceAction::Stop) == "stop"@,
        action_word(ServiceAction::Restart) == "restart"@,
        action_word(ServiceAction::Enable) == "enable"@,
        action_word(ServiceAction::Disable) == "disable"@,
        action_participle(ServiceAction::Start) == "starting"@,
        action_participle(ServiceAction::Stop) == "stopping"@,
        action_participle(ServiceAction::Restart) == "restarting"@,
        action_participle(ServiceAction::Enable) == "enabling startup for"@,
        action_participle(ServiceAction::Disable) == "disabling startup for"@,
        action_completed(ServiceAction::Start) == "Started"@,
        action_completed(ServiceAction::Stop) == "Stopped"@,
        action_completed(ServiceAction::Restart) == "Restarted"@,
        action_completed(ServiceAction::Enable) == "Startup enabled"@,
        action_completed(ServiceAction::Disable) == "Startup disabled"@,
{
}

/// Different actions have different verbs and different confirmations.
pub proof fn law_actions_are_told_apart(a: ServiceAction, b: ServiceAction)
    requires
        a != b,
    ensures
        action_word(a) != action_word(b),
        action_completed(a) != action_completed(b),
        action_participle(a) != action_participle(b),
{
    reveal_strlit("start");
    reveal_strlit("stop");
    reveal_strlit("restart");
    reveal_strlit("enable");
    reveal_strlit("disable");
    reveal_strlit("Started");
    reveal_strlit("Stopped");
    reveal_strlit("Restarted");
    reveal_strlit("Startup enabled");
    reveal_strlit("Startup disabled");
    reveal_strlit("starting");
    reveal_strlit("stopping");
    reveal_strlit("restarting");
    reveal_strlit("enabling startup for");
    reveal_strlit("disabling startup for");
    assert("start"@[2] != "stop"@[2]);
    assert("restart"@[0] != "disable"@[0]);
    assert("start"@.len() != "stop"@.len() && "enable"@.len() != "stop"@.len());
    assert("Restarted"@.len() != "Started"@.len());
    assert("Startup enabled"@.len() != "Startup disabled"@.len());
    assert("Started"@[2] != "Stopped"@[2]);
    assert("starting"@[2] != "stopping"@[2]);
    assert("starting"@.len() == 8 && "stopping"@.len() == 8 && "restarting"@.len() == 10);
    assert("enabling startup for"@.len() == 20 && "disabling startup for"@.len() == 21);
    assert("Startup enabled"@[8] != "Startup disabled"@[8]);
}

/// Every word `is-enabled` prints maps to its startup state.
pub proof fn law_startup_words()
    ensures
        startup_of("enabled"@) == StartupState::Enabled,
        startup_of("enabled-runtime"@) == StartupState::Enabled,
        startup_of("alias"@) == StartupState::Enabled,
        startup_of("linked"@) == StartupState::Enabled,
        startup_of("linked-runtime"@) == StartupState::Enabled,
        startup_of("disabled"@) == StartupState::Disabled,
        startup_of("indirect"@) == StartupState::Disabled,
        startup_of("static"@) == StartupState::Static,
        startup_of("generated"@) == StartupState::Static,
        startup_of("transient"@) == StartupState::Static,
        startup_of("masked"@) == StartupState::Masked,
        startup_of("masked-runtime"@) == StartupState::Masked,
{
    reveal_strlit("enabled");
    reveal_strlit("enabled-runtime");
    reveal_strlit("alias");
    reveal_strlit("linked");
    reveal_strlit("linked-runtime");
    reveal_strlit("disabled");
    reveal_strlit("indirect");
    reveal_strlit("static");
    reveal_strlit("generated");
    reveal_strlit("transient");
    reveal_strlit("masked");
    reveal_strlit("masked-runtime");
    assert("enabled"@[0] != "disabled"@[0]);
    assert("linked-runtime"@[0] != "masked-runtime"@[0]);
    assert("linked"@[0] != "masked"@[0]);
    assert("linked"@[0] != "static"@[0]);
    assert("static"@[0] != "masked"@[0]);
    assert("indirect"@[0] != "disabled"@[0]);
    assert("enabled"@[0] != "alias"@[0]);
    assert("generated"@[0] != "disabled"@[0]);
    assert("generated"@[0] != "indirect"@[0]);
    assert("transient"@[0] != "disabled"@[0]);
    assert("transient"@[0] != "indirect"@[0]);
    assert("transient"@[0] != "generated"@[0]);
}

/// Only the listed words give a known startup state; anything else is
/// unknown, whatever it says.
pub proof fn law_other_startup_words_are_unknown(printed: Seq<char>)
    requires
        printed != "enabled"@,
        printed != "enabled-runtime"@,
        printed != "alias"@,
        printed != "linked"@,
        printed != "linked-runtime"@,
        printed != "disabled"@,
        printed != "indirect"@,
        printed != "static"@,
        printed != "generated"@,
        printed != "transient"@,
        printed != "masked"@,
        printed != "masked-runtime"@,
    ensures
        startup_of(printed) == StartupState::Unknown,
{
}

/// Unless systemd is unreachable or the unit missing, the startup state is
/// what `is-enabled` printed, whatever the exit code.
pub proof fn law_startup_read_from_the_printed_word(service: DefinitionView, text: TextView)
    requires
        !says_no_systemd(text.combined),
        !says_missing_unit(text.combined),
    ensures
        startup_verdict(service, text) == Ok::<StartupState, ErrorView>(startup_of(text.stdout)),
{
}

/// The runtime status is read from the word `is-active` printed: `active` is
/// running, `inactive` and `deactivating` are stopped, `failed` is failed,
/// any other word is unknown on a zero exit and a failure otherwise.
pub proof fn law_status_words(service: DefinitionView, text: TextView)
    requires
        !says_no_systemd(text.combined),
        !says_missing_unit(text.combined),
    ensures
        text.stdout == "active"@ ==> status_verdict(service, text) == Ok::<
            ServiceStatus,
            ErrorView,
        >(ServiceStatus::Running),
        text.stdout == "inactive"@ ==> status_verdict(service, text) == Ok::<
            ServiceStatus,
            ErrorView,
        >(ServiceStatus::Stopped),
        text.stdout == "deactivating"@ ==> status_verdict(service, text) == Ok::<
            ServiceStatus,
            ErrorView,
        >(ServiceStatus::Stopped),
        text.stdout == "failed"@ ==> status_verdict(service, text) == Ok::<
            ServiceStatus,
            ErrorView,
        >(ServiceStatus::Failed),
        (text.stdout != "active"@ && text.stdout != "inactive"@ && text.stdout != "deactivating"@
            && text.stdout != "failed"@) ==> (if text.success {
            status_verdict(service, text) == Ok::<ServiceStatus, ErrorView>(ServiceStatus::Unknown)
        } else {
            status_verdict(service, text) matches Err(e) && e.code == ErrorCode::CommandFailed
        }),
{
    reveal_strlit("active");
    reveal_strlit("inactive");
    reveal_strlit("deactivating");
    reveal_strlit("failed");
    assert("active"@[0] != "inactive"@[0]);
    assert("active"@[0] != "failed"@[0]);
    assert("inactive"@[0] != "failed"@[0]);
}

/// Systemd being unreachable is reported first, in every reading.
pub proof fn law_no_systemd_is_reported_first(service: DefinitionView, text: TextView)
    requires
        says_no_systemd(text.combined),
    ensures
        status_verdict(service, text) matches Err(e) && e.code == ErrorCode::SystemdUnavailable,
        startup_verdict(service, text) matches Err(e) && e.code == ErrorCode::SystemdUnavailable,
        load_verdict(service, text) matches Err(e) && e.code == ErrorCode::SystemdUnavailable,
{
}

/// A unit is missing only when `systemctl` printed `not-found` or said so;
/// any other successful answer to the unit check, such as `loaded` or
/// `masked`, lets the operation go on.
pub proof fn law_unit_missing_only_when_reported(service: DefinitionView, text: TextView)
    ensures
        (load_verdict(service, text) matches Err(e) && e.code == ErrorCode::UnitNotFound) ==> (
        text.stdout == "not-found"@ || says_missing_unit(text.combined)),
        (text.success && !says_no_systemd(text.combined) && text.stdout != "not-found"@
            && !says_missing_unit(text.combined)) ==> load_verdict(service, text) == Ok::<
            (),
            ErrorView,
        >(()),
        (!says_no_systemd(text.combined) && (text.stdout == "not-found"@ || says_missing_unit(
            text.combined,
        ))) ==> (load_verdict(service, text) matches Err(e) && e.code == ErrorCode::UnitNotFound),
{
}

/// The unit check on a known unit moves a reading on to the runtime status,
/// and a mutation on to the mutation itself.
pub proof fn law_known_units_pass_the_check(
    service: DefinitionView,
    action: ServiceAction,
    output: OutputView,
)
    requires
        output.exit_code == Some(0i32),
        !says_no_systemd(text_of(output).combined),
        !says_missing_unit(text_of(output).combined),
        text_of(output).stdout != "not-found"@,
    ensures
        inspect_next(service, InspectStageView::Load, ReplyView::Exited(output))
            == InspectStageView::Active,
        action_next(service, action, ActionStageView::Load, ReplyView::Exited(output))
            == ActionStageView::Mutate,
{
}

/// A mutation succeeded exactly when `systemctl` exited with code zero,
/// whatever it printed; then the service is read again. Otherwise its output
/// is classified as the failure.
pub proof fn law_mutation_success_is_the_exit_status(
    service: DefinitionView,
    action: ServiceAction,
    output: OutputView,
)
    ensures
        (action_next(service, action, ActionStageView::Mutate, ReplyView::Exited(output))
            == ActionStageView::Done(Ok::<(), ErrorView>(()))) <==> output.exit_code == Some(0i32),
        output.exit_code != Some(0i32) ==> action_next(
            service,
            action,
            ActionStageView::Mutate,
            ReplyView::Exited(output),
        ) == ActionStageView::Done(Err::<(), ErrorView>(action_failure(service, action, text_of(output)))),
        output.exit_code == Some(0i32) ==> task_next(
            ServiceTaskView::Acting(
                ActionRunView { service, action, stage: ActionStageView::Mutate },
            ),
            ReplyView::Exited(output),
        ) == reading_task(service),
{
}

/// When no PolicyKit agent could be asked, a failed mutation is reported as
/// permission denied, whatever else the text says, unless systemd itself is
/// unreachable.
pub proof fn law_no_agent_is_permission_denied(
    service: DefinitionView,
    action: ServiceAction,
    text: TextView,
)
    requires
        !says_no_systemd(text.combined),
        says_no_agent(text.combined),
    ensures
        action_failure(service, action, text) == (ErrorView {
            code: ErrorCode::PermissionDenied,
            message: "No PolicyKit authentication agent answered while "@ + action_participle(
                action,
            ) + " "@ + service.name + "."@,
            details: details_of(text.stderr),
        }),
{
}

/// When somebody was asked and refused, a failed mutation is reported as a
/// cancelled authorization.
pub proof fn law_refusal_is_cancelled_authorization(
    service: DefinitionView,
    action: ServiceAction,
    text: TextView,
)
    requires
        !says_no_systemd(text.combined),
        !says_no_agent(text.combined),
        says_refused(text.combined),
    ensures
        action_failure(service, action, text) == (ErrorView {
            code: ErrorCode::AuthorizationCancelled,
            message: "Authorization was cancelled or denied while "@ + action_participle(action)
                + " "@ + service.name + "."@,
            details: details_of(text.stderr),
        }),
{
}

/// A failed mutation that mentions neither systemd, nor authorization, nor a
/// missing unit is a plain command failure.
pub proof fn law_other_mutation_failures(
    service: DefinitionView,
    action: ServiceAction,
    text: TextView,
)
    requires
        !says_no_systemd(text.combined),
        !says_no_agent(text.combined),
        !says_refused(text.combined),
    ensures
        says_missing_unit(text.combined) ==> action_failure(service, action, text).code
            == ErrorCode::UnitNotFound,
        !says_missing_unit(text.combined) ==> action_failure(service, action, text).code
            == ErrorCode::CommandFailed,
{
}

/// Authorization failures, and nothing else, stop a bulk operation.
pub proof fn law_which_failures_stop_a_bulk_run(code: ErrorCode)
    ensures
        aborts(code) <==> (code == ErrorCode::AuthorizationCancelled || code
            == ErrorCode::PermissionDenied),
{
}

/// In a bulk operation, a mutation that fails because no agent could be
/// asked ends the run: that service's row says permission denied, every
/// remaining registered service is reported as skipped, and nothing more is
/// asked of systemd.
pub proof fn law_no_agent_skips_the_rest_of_a_bulk_run(
    task: BulkTaskView,
    run: ActionRunView,
    output: OutputView,
)
    requires
        bulk_well_formed(task),
        task.current == Some(ServiceTaskView::Acting(run)),
        run.stage == ActionStageView::Mutate,
        output.exit_code != Some(0i32),
        !says_no_systemd(text_of(output).combined),
        says_no_agent(text_of(output).combined),
    ensures
        bulk_next(task, ReplyView::Exited(output)).current is None,
        bulk_next(task, ReplyView::Exited(output)).run.results.len() == registry().len(),
        bulk_next(task, ReplyView::Exited(output)).run.results[task.run.results.len() as int].error
            matches Some(e) && e.code == ErrorCode::PermissionDenied,
        forall|i: int|
            task.run.results.len() < i < registry().len() ==> #[trigger] bulk_next(
                task,
                ReplyView::Exited(output),
            ).run.results[i] == failed_row(
                registry()[i],
                ErrorView {
                    code: ErrorCode::AuthorizationCancelled,
                    message: "Skipped because authorization did not succeed."@,
                    details: None,
                },
            ),
{
    let reply = ReplyView::Exited(output);
    let error = action_failure(run.service, run.action, text_of(output));
    law_no_agent_is_permission_denied(run.service, run.action, text_of(output));
    assert(task_next(ServiceTaskView::Acting(run), reply) == ServiceTaskView::Finished(
        Err::<crate::models::ServiceView, ErrorView>(error),
    ));
    crate::laws::law_authorization_failure_skips_the_rest(task, reply, error);
    let k = task.run.results.len() as int;
    let rows = bulk_next(task, reply).run.results;
    assert(rows[k] == crate::commands::recorded(task.run.action, task.run.results, Err(error))[k]);
    assert(rows[k] == failed_row(registry()[k], error));
}

/// In a bulk operation, a service whose fresh reading succeeded gets a
/// successful row confirming the action, with its snapshot, and the action
/// goes on to the next registered service.
pub proof fn law_bulk_success_rows_confirm_the_action(
    task: BulkTaskView,
    current: ServiceTaskView,
    reply: ReplyView,
    snapshot: crate::models::ServiceView,
)
    requires
        bulk_well_formed(task),
        task.current == Some(current),
        task_next(current, reply) == ServiceTaskView::Finished(Ok::<
            crate::models::ServiceView,
            ErrorView,
        >(snapshot)),
    ensures
        bulk_next(task, reply).run.results.len() == task.run.results.len() + 1,
        bulk_next(task, reply).run.results.last().success,
        bulk_next(task, reply).run.results.last().message == action_completed(task.run.action),
        bulk_next(task, reply).run.results.last().service == Some(snapshot),
        bulk_next(task, reply).run.results.last().error is None,
        task.run.results.len() + 1 < registry().len() ==> bulk_next(task, reply).current == Some(
            acting_task(registry()[task.run.results.len() + 1int], task.run.action),
        ),
{
}

/// The argument list of each query: the unit check, the two readings, and a
/// mutation, each naming the unit last.
pub proof fn law_query_arguments(service: DefinitionView, action: ServiceAction)
    ensures
        request_arguments(RequestView { service, query: Query::LoadState }) == seq![
            "show"@,
            "--property=LoadState"@,
            "--value"@,
            service.unit,
        ],
        request_arguments(RequestView { service, query: Query::ActiveState }) == seq![
            "is-active"@,
            service.unit,
        ],
        request_arguments(RequestView { service, query: Query::StartupState }) == seq![
            "is-enabled"@,
            service.unit,
        ],
        request_arguments(RequestView { service, query: Query::Mutation(action) }) == seq![
            action_word(action),
            service.unit,
        ],
{
}

/// When `systemctl` cannot be started at all, a reading or a mutation in
/// progress ends with a command failure that says so and carries the reason.
pub proof fn law_spawn_failure_ends_the_step(
    service: DefinitionView,
    action: ServiceAction,
    reading: InspectStageView,
    acting: ActionStageView,
    reason: Seq<char>,
)
    requires
        !(reading is Done),
        !(acting is Done),
    ensures
        inspect_next(service, reading, ReplyView::SpawnFailed(reason)) == InspectStageView::Done(
            Err::<ServiceState, ErrorView>(
                ErrorView {
                    code: ErrorCode::CommandFailed,
                    message: "Could not run systemctl."@,
                    details: details_of(reason),
                },
            ),
        ),
        action_next(service, action, acting, ReplyView::SpawnFailed(reason))
            == ActionStageView::Done(
            Err::<(), ErrorView>(
                ErrorView {
                    code: ErrorCode::CommandFailed,
                    message: "Could not run systemctl."@,
                    details: details_of(reason),
                },
            ),
        ),
{
    reveal_strlit("Could not run ");
    reveal_strlit("systemctl");
    reveal_strlit(".");
    reveal_strlit("Could not run systemctl.");
    assert("Could not run "@ + "systemctl"@ + "."@ =~= "Could not run systemctl."@);
}

/// The messages of a missing unit and of an unreachable systemd, with the
/// standard error text as details.
pub proof fn law_missing_unit_and_no_systemd_messages(service: DefinitionView, text: TextView)
    ensures
        says_no_systemd(text.combined) ==> load_verdict(service, text) == Err::<(), ErrorView>(
            ErrorView {
                code: ErrorCode::SystemdUnavailable,
                message: "systemd is not available on this Linux system."@,
                details: details_of(text.stderr),
            },
        ),
        (!says_no_systemd(text.combined) && text.stdout == "not-found"@) ==> load_verdict(
            service,
            text,
        ) == Err::<(), ErrorView>(
            ErrorView {
                code: ErrorCode::UnitNotFound,
                message: service.name + " is not installed or its unit was not found."@,
                details: details_of(text.stderr),
            },
        ),
        (!says_no_systemd(text.combined) && text.stdout != "not-found"@ && !says_missing_unit(
            text.combined,
        ) && !text.success) ==> load_verdict(service, text) == Err::<(), ErrorView>(
            ErrorView {
                code: ErrorCode::CommandFailed,
                message: "Could not inspect the "@ + service.name + " systemd unit."@,
                details: details_of(
                    if text.stderr.len() != 0 {
                        text.stderr
                    } else {
                        text.stdout
                    },
                ),
            },
        ),
{
}

/// A reading that fails because the unit is missing gives a not-installed
/// snapshot of the service; any other failure stays a failure; a successful
/// reading gives the service in the state read.
pub proof fn law_missing_unit_reads_as_not_installed(
    definition: DefinitionView,
    inspection: Result<ServiceState, ErrorView>,
)
    ensures
        inspection matches Ok(state) ==> snapshot(definition, inspection) == Ok::<
            ServiceView,
            ErrorView,
        >(
            ServiceView {
                id: definition.id,
                name: definition.name,
                unit: definition.unit,
                status: state.status,
                startup: state.startup,
            },
        ),
        inspection matches Err(e) ==> (if e.code == ErrorCode::UnitNotFound {
            snapshot(definition, inspection) == Ok::<ServiceView, ErrorView>(
                ServiceView {
                    id: definition.id,
                    name: definition.name,
                    unit: definition.unit,
                    status: ServiceStatus::NotInstalled,
                    startup: StartupState::Unknown,
                },
            )
        } else {
            snapshot(definition, inspection) == Err::<ServiceView, ErrorView>(e)
        }),
{
}

} // verus!
