//! Properties that hold across the operations of the library.
use vstd::prelude::*;

use crate::commands::{
    acting_task, aborts, bulk_next, bulk_well_formed, listing_next, listing_well_formed,
    reading_task, recorded, registry, resolution, resolved_task, skipped_error, skipped_rows,
    snapshot, task_next, task_request, task_service, BulkTaskView, ServiceTaskView,
    ServicesTaskView,
};
use crate::models::{
    failed_row, BulkResultView, DefinitionView, ErrorCode, ErrorView, ServiceState, ServiceView,
};
use crate::systemd::{
    action_failure, action_next, action_query, action_word, inspect_query, load_verdict,
    mentions_no_auth_agent, mentions_no_systemd, mutation_arguments, startup_verdict, text_of,
    inspect_next, ActionStageView, InspectStageView, InspectionView, Query, ReplyView,
    ServiceAction, TextView,
};

verus! {

/// The text begins with two dashes, as command-line options do.
pub open spec fn is_option(argument: Seq<char>) -> bool {
    argument.len() >= 2 && argument[0] == '-' && argument[1] == '-'
}

/// No two registered services share an id or a unit.
pub proof fn law_registry_ids_and_units_are_unique(i: int, j: int)
    requires
        0 <= i < registry().len(),
        0 <= j < registry().len(),
        i != j,
    ensures
        registry()[i].id != registry()[j].id,
        registry()[i].unit != registry()[j].unit,
{
    reveal_strlit("postgresql");
    reveal_strlit("docker");
    reveal_strlit("mongodb");
    reveal_strlit("postgresql.service");
    reveal_strlit("docker.service");
    reveal_strlit("mongod.service");
    assert("postgresql"@[0] != "docker"@[0]);
    assert("postgresql"@[0] != "mongodb"@[0]);
    assert("docker"@[0] != "mongodb"@[0]);
    assert("postgresql.service"@[0] != "docker.service"@[0]);
    assert("postgresql.service"@[0] != "mongod.service"@[0]);
    assert("docker.service"@[0] != "mongod.service"@[0]);
}

proof fn lemma_find_service(definitions: Seq<DefinitionView>, id: Seq<char>)
    ensures
        crate::commands::find_service(definitions, id) matches Some(d) ==> (d.id == id && exists|
            i: int,
        | 0 <= i < definitions.len() && definitions[i] == d),
        crate::commands::find_service(definitions, id) is None ==> forall|i: int|
            0 <= i < definitions.len() ==> #[trigger] definitions[i].id != id,
    decreases definitions.len(),
{
    if definitions.len() > 0 && definitions[0].id != id {
        lemma_find_service(definitions.drop_first(), id);
        if let Some(d) = crate::commands::find_service(definitions, id) {
            let i = choose|i: int| 0 <= i < definitions.drop_first().len() && definitions.drop_first()[i] == d;
            assert(definitions[i + 1] == d);
        } else {
            assert forall|i: int| 0 <= i < definitions.len() implies #[trigger] definitions[i].id != id by {
                if i > 0 {
                    assert(definitions[i] == definitions.drop_first()[i - 1]);
                }
            }
        }
    } else if definitions.len() > 0 {
        assert(definitions[0] == definitions[0]);
    }
}

/// An id resolves exactly when a registered service carries it, and then to
/// that service; anything else is rejected as an unknown service.
pub proof fn law_only_registered_ids_resolve(id: Seq<char>)
    ensures
        resolution(id) matches Ok(d) ==> (d.id == id && exists|i: int|
            0 <= i < registry().len() && registry()[i] == d),
        resolution(id) matches Err(e) ==> (e.code == ErrorCode::UnknownService && forall|i: int|
            0 <= i < registry().len() ==> #[trigger] registry()[i].id != id),
{
    lemma_find_service(registry(), id);
}

/// A mutation hands `systemctl` exactly two arguments, the verb and the unit
/// of a registered service, and neither is an option such as `--now` or
/// `--no-ask-password`.
pub proof fn law_mutations_pass_no_options(i: int, action: ServiceAction)
    requires
        0 <= i < registry().len(),
    ensures
        mutation_arguments(registry()[i], action).len() == 2,
        mutation_arguments(registry()[i], action)[0] == action_word(action),
        mutation_arguments(registry()[i], action)[1] == registry()[i].unit,
        !is_option(mutation_arguments(registry()[i], action)[0]),
        !is_option(mutation_arguments(registry()[i], action)[1]),
{
    reveal_strlit("start");
    reveal_strlit("stop");
    reveal_strlit("restart");
    reveal_strlit("enable");
    reveal_strlit("disable");
    reveal_strlit("postgresql.service");
    reveal_strlit("docker.service");
    reveal_strlit("mongod.service");
}

/// Enabling or disabling startup never touches the runtime state: the
/// arguments name neither `start` nor `stop`, and never `--now`.
pub proof fn law_startup_changes_keep_runtime(i: int, action: ServiceAction)
    requires
        0 <= i < registry().len(),
        action == ServiceAction::Enable || action == ServiceAction::Disable,
    ensures
        forall|k: int|
            0 <= k < 2 ==> {
                &&& #[trigger] mutation_arguments(registry()[i], action)[k] != "start"@
                &&& mutation_arguments(registry()[i], action)[k] != "stop"@
                &&& mutation_arguments(registry()[i], action)[k] != "--now"@
            },
{
    reveal_strlit("start");
    reveal_strlit("stop");
    reveal_strlit("--now");
    reveal_strlit("enable");
    reveal_strlit("disable");
    reveal_strlit("postgresql.service");
    reveal_strlit("docker.service");
    reveal_strlit("mongod.service");
    assert("enable"@[0] != "start"@[0]);
    assert("enable"@[0] != "stop"@[0]);
    assert("disable"@[0] != "start"@[0]);
    assert("disable"@[0] != "stop"@[0]);
    assert("enable"@[0] != "--now"@[0]);
    assert("disable"@[0] != "--now"@[0]);
    assert("postgresql.service"@.len() != "start"@.len());
    assert("postgresql.service"@.len() != "stop"@.len());
    assert("postgresql.service"@.len() != "--now"@.len());
    assert("docker.service"@.len() != "start"@.len());
    assert("docker.service"@.len() != "stop"@.len());
    assert("docker.service"@.len() != "--now"@.len());
    assert("mongod.service"@.len() != "start"@.len());
    assert("mongod.service"@.len() != "stop"@.len());
    assert("mongod.service"@.len() != "--now"@.len());
}

/// A mutation is only ever run after the unprivileged check found the unit:
/// whatever the reply to that check, the next step is the mutation only when
/// the check succeeded, and a missing unit ends the run without it.
pub proof fn law_mutation_only_after_unit_check(
    service: DefinitionView,
    action: ServiceAction,
    reply: ReplyView,
)
    ensures
        action_next(service, action, ActionStageView::Load, reply) == ActionStageView::Mutate
            <==> (reply matches ReplyView::Exited(output) && load_verdict(
            service,
            text_of(output),
        ) is Ok),
        action_next(service, action, ActionStageView::Load, reply) != ActionStageView::Mutate
            ==> action_query(action, action_next(service, action, ActionStageView::Load, reply))
            is None,
{
}

/// Reading a service never asks for a mutation, so it never needs authorization.
pub proof fn law_readings_never_mutate(stage: InspectStageView)
    ensures
        inspect_query(stage) matches Some(q) ==> !(q is Mutation),
{
}

/// Once a task reads a service (after the mutation, or from the start), every
/// later request it makes is an unprivileged read.
pub proof fn law_reading_tasks_only_read(task: ServiceTaskView, reply: ReplyView)
    requires
        task is Reading,
    ensures
        task_request(task) matches Some(r) ==> !(r.query is Mutation),
        task_request(task_next(task, reply)) matches Some(r) ==> !(r.query is Mutation),
{
}

/// `is-enabled` exits non-zero for disabled and masked units, so the exit
/// code plays no part in reading the startup state.
pub proof fn law_startup_ignores_exit_code(service: DefinitionView, a: TextView, b: TextView)
    requires
        a.stdout == b.stdout,
        a.stderr == b.stderr,
        a.combined == b.combined,
    ensures
        startup_verdict(service, a) == startup_verdict(service, b),
{
}

/// When no agent answered, the failure is reported as such even if the text
/// also mentions a refusal or a missing unit.
pub proof fn law_missing_agent_is_not_a_missing_unit(
    service: DefinitionView,
    action: ServiceAction,
    text: TextView,
)
    requires
        !mentions_no_systemd(text.combined),
        mentions_no_auth_agent(text.combined),
    ensures
        action_failure(service, action, text).code == ErrorCode::PermissionDenied,
{
}

/// After an authorization failure every remaining registered service gets a
/// skipped row, the report is complete, and nothing more is attempted.
pub proof fn law_authorization_failure_skips_the_rest(
    task: BulkTaskView,
    reply: ReplyView,
    error: ErrorView,
)
    requires
        bulk_well_formed(task),
        task.current matches Some(current) && task_next(current, reply)
            == ServiceTaskView::Finished(Err(error)),
        aborts(error.code),
    ensures
        bulk_next(task, reply).current is None,
        bulk_next(task, reply).run.results.len() == registry().len(),
        forall|i: int|
            task.run.results.len() < i < registry().len() ==> #[trigger] bulk_next(
                task,
                reply,
            ).run.results[i] == failed_row(registry()[i], skipped_error()),
{
    let k = task.run.results.len() as int;
    let rows = recorded(task.run.action, task.run.results, Err(error));
    assert(rows == task.run.results.push(
        crate::commands::outcome_row(task.run.action, registry()[k], Err(error)),
    ) + skipped_rows(k + 1));
    assert forall|i: int| k < i < registry().len() implies #[trigger] rows[i] == failed_row(
        registry()[i],
        skipped_error(),
    ) by {
        assert(rows[i] == skipped_rows(k + 1)[i - k - 1]);
    }
}

/// An ordinary failure does not stop the others: the row is recorded and the
/// action goes on to the next registered service.
pub proof fn law_ordinary_failure_goes_on(task: BulkTaskView, reply: ReplyView, error: ErrorView)
    requires
        bulk_well_formed(task),
        task.current matches Some(current) && task_next(current, reply)
            == ServiceTaskView::Finished(Err(error)),
        !aborts(error.code),
        task.run.results.len() + 1 < registry().len(),
    ensures
        bulk_next(task, reply).run.results.len() == task.run.results.len() + 1,
        bulk_next(task, reply).run.results.last() == failed_row(
            registry()[task.run.results.len() as int],
            error,
        ),
        bulk_next(task, reply).current == Some(
            acting_task(registry()[task.run.results.len() + 1int], task.run.action),
        ),
{
}

/// A finished bulk report has exactly one row per registered service, each
/// in the registry's position.
pub proof fn law_bulk_report_covers_the_registry(task: BulkTaskView)
    requires
        bulk_well_formed(task),
        task.current is None,
    ensures
        task.run.results.len() == registry().len(),
        forall|i: int|
            0 <= i < registry().len() ==> #[trigger] task.run.results[i].service_id
                == registry()[i].id,
{
}

/// A single-service operation only ever asks systemd about the registered
/// service its id resolved to; an unknown id asks nothing at all.
pub proof fn law_resolved_tasks_name_registered_units(id: Seq<char>, action: Option<ServiceAction>)
    ensures
        task_request(resolved_task(id, action)) matches Some(r) ==> (r.service.id == id
            && exists|i: int| 0 <= i < registry().len() && registry()[i] == r.service),
        resolution(id) is Err ==> task_request(resolved_task(id, action)) is None,
{
    law_only_registered_ids_resolve(id);
}

/// A task stays about the same service from one reply to the next.
pub proof fn law_tasks_keep_their_service(task: ServiceTaskView, reply: ReplyView)
    ensures
        task_service(task_next(task, reply)) is None || task_service(task_next(task, reply))
            == task_service(task),
        task_request(task_next(task, reply)) matches Some(r) ==> task_service(task) == Some(
            r.service,
        ),
{
}

/// A finished listing holds one snapshot per registered service, in registry
/// order.
pub proof fn law_listing_covers_the_registry(snapshots: Seq<ServiceView>)
    requires
        listing_well_formed(ServicesTaskView::Finished(Ok(snapshots))),
    ensures
        snapshots.len() == registry().len(),
        forall|i: int|
            0 <= i < registry().len() ==> #[trigger] snapshots[i].id == registry()[i].id
                && snapshots[i].unit == registry()[i].unit,
{
}

/// A reading of `service` from `stage`, given `replies` in turn.
pub open spec fn inspect_run(
    service: DefinitionView,
    stage: InspectStageView,
    replies: Seq<ReplyView>,
) -> InspectStageView
    decreases replies.len(),
{
    if replies.len() == 0 {
        stage
    } else {
        inspect_run(service, inspect_next(service, stage, replies[0]), replies.drop_first())
    }
}

/// A listing given `replies` in turn.
pub open spec fn listing_run(task: ServicesTaskView, replies: Seq<ReplyView>) -> ServicesTaskView
    decreases replies.len(),
{
    if replies.len() == 0 {
        task
    } else {
        listing_run(listing_next(task, replies[0]), replies.drop_first())
    }
}

/// The blocks of replies one after the other.
pub open spec fn joined(blocks: Seq<Seq<ReplyView>>) -> Seq<ReplyView>
    decreases blocks.len(),
{
    if blocks.len() == 0 {
        Seq::empty()
    } else {
        joined(blocks.drop_last()) + blocks.last()
    }
}

/// `replies` are exactly what a reading of `service` takes to end with
/// `outcome`: it ends on the last of them and not before.
pub open spec fn reading_replies(
    service: DefinitionView,
    replies: Seq<ReplyView>,
    outcome: Result<ServiceState, ErrorView>,
) -> bool {
    &&& replies.len() > 0
    &&& inspect_run(service, InspectStageView::Load, replies) == InspectStageView::Done(outcome)
    &&& !(inspect_run(service, InspectStageView::Load, replies.drop_last()) is Done)
}

/// Position `j` holds the first reading that fails, a missing unit not being
/// a failure.
pub open spec fn first_failure(outcomes: Seq<Result<ServiceState, ErrorView>>, j: int) -> bool {
    &&& 0 <= j < outcomes.len()
    &&& snapshot(registry()[j], outcomes[j]) is Err
    &&& forall|i: int| 0 <= i < j ==> #[trigger] snapshot(registry()[i], outcomes[i]) is Ok
}

/// The snapshots the readings gave, in registry order.
pub open spec fn snapshots_of(outcomes: Seq<Result<ServiceState, ErrorView>>) -> Seq<ServiceView> {
    Seq::new(outcomes.len(), |i: int| snapshot(registry()[i], outcomes[i])->Ok_0)
}

/// Where a listing stands once the readings of the first registered services
/// gave `outcomes`: the first failure ends it with that failure and nothing
/// after it is read; otherwise it holds each service's snapshot, in order,
/// and reads the next service or is complete.
pub open spec fn listing_after(outcomes: Seq<Result<ServiceState, ErrorView>>) -> ServicesTaskView {
    if exists|j: int| first_failure(outcomes, j) {
        let j = choose|j: int| first_failure(outcomes, j);
        ServicesTaskView::Finished(Err(snapshot(registry()[j], outcomes[j])->Err_0))
    } else if outcomes.len() == registry().len() {
        ServicesTaskView::Finished(Ok(snapshots_of(outcomes)))
    } else {
        ServicesTaskView::Reading {
            collected: snapshots_of(outcomes),
            current: reading_task(registry()[outcomes.len() as int]),
        }
    }
}

proof fn lemma_listing_run_append(task: ServicesTaskView, a: Seq<ReplyView>, b: Seq<ReplyView>)
    ensures
        listing_run(task, a + b) == listing_run(listing_run(task, a), b),
    decreases a.len(),
{
    if a.len() == 0 {
        assert(a + b =~= b);
    } else {
        assert((a + b)[0] == a[0]);
        assert((a + b).drop_first() =~= a.drop_first() + b);
        lemma_listing_run_append(listing_next(task, a[0]), a.drop_first(), b);
    }
}

proof fn lemma_finished_listing_stays(task: ServicesTaskView, replies: Seq<ReplyView>)
    requires
        task is Finished,
    ensures
        listing_run(task, replies) == task,
    decreases replies.len(),
{
    if replies.len() > 0 {
        lemma_finished_listing_stays(listing_next(task, replies[0]), replies.drop_first());
    }
}

proof fn lemma_done_reading_stays(
    service: DefinitionView,
    stage: InspectStageView,
    replies: Seq<ReplyView>,
)
    requires
        stage is Done,
    ensures
        inspect_run(service, stage, replies) == stage,
    decreases replies.len(),
{
    if replies.len() > 0 {
        lemma_done_reading_stays(service, inspect_next(service, stage, replies[0]), replies.drop_first());
    }
}

/// The listing after the reading of the `k`th service ended with `outcome`.
pub open spec fn after_reading(
    collected: Seq<ServiceView>,
    k: int,
    outcome: Result<ServiceState, ErrorView>,
) -> ServicesTaskView {
    match snapshot(registry()[k], outcome) {
        Ok(s) => {
            let more = collected.push(s);
            if more.len() == registry().len() {
                ServicesTaskView::Finished(Ok(more))
            } else {
                ServicesTaskView::Reading {
                    collected: more,
                    current: reading_task(registry()[more.len() as int]),
                }
            }
        },
        Err(e) => ServicesTaskView::Finished(Err(e)),
    }
}

proof fn lemma_one_reading(
    collected: Seq<ServiceView>,
    k: int,
    stage: InspectStageView,
    replies: Seq<ReplyView>,
    outcome: Result<ServiceState, ErrorView>,
)
    requires
        0 <= k < registry().len(),
        collected.len() == k,
        !(stage is Done),
        replies.len() > 0,
        inspect_run(registry()[k], stage, replies) == InspectStageView::Done(outcome),
        !(inspect_run(registry()[k], stage, replies.drop_last()) is Done),
    ensures
        listing_run(
            ServicesTaskView::Reading {
                collected,
                current: ServiceTaskView::Reading(InspectionView { service: registry()[k], stage }),
            },
            replies,
        ) == after_reading(collected, k, outcome),
    decreases replies.len(),
{
    let service = registry()[k];
    let task = ServicesTaskView::Reading {
        collected,
        current: ServiceTaskView::Reading(InspectionView { service, stage }),
    };
    let next_stage = inspect_next(service, stage, replies[0]);
    if replies.len() == 1 {
        assert(replies.drop_first().len() == 0);
        assert(listing_run(listing_next(task, replies[0]), replies.drop_first()) == listing_next(
            task,
            replies[0],
        ));
    } else {
        assert(replies.drop_last().drop_first() =~= replies.drop_first().drop_last());
        assert(replies.drop_last()[0] == replies[0]);
        if next_stage is Done {
            lemma_done_reading_stays(service, next_stage, replies.drop_last().drop_first());
        }
        lemma_one_reading(collected, k, next_stage, replies.drop_first(), outcome);
    }
}

proof fn lemma_first_failure_unique(outcomes: Seq<Result<ServiceState, ErrorView>>, i: int, j: int)
    requires
        first_failure(outcomes, i),
        first_failure(outcomes, j),
    ensures
        i == j,
{
    if i < j {
        assert(snapshot(registry()[i], outcomes[i]) is Ok);
    } else if j < i {
        assert(snapshot(registry()[j], outcomes[j]) is Ok);
    }
}

proof fn lemma_some_failure_is_first(outcomes: Seq<Result<ServiceState, ErrorView>>, j: int)
    requires
        0 <= j < outcomes.len(),
        j < registry().len(),
        snapshot(registry()[j], outcomes[j]) is Err,
    ensures
        exists|f: int| first_failure(outcomes, f),
    decreases j,
{
    if exists|i: int| 0 <= i < j && #[trigger] snapshot(registry()[i], outcomes[i]) is Err {
        let i = choose|i: int| 0 <= i < j && #[trigger] snapshot(registry()[i], outcomes[i]) is Err;
        lemma_some_failure_is_first(outcomes, i);
    } else {
        assert(first_failure(outcomes, j));
    }
}

/// Over a whole listing run: when the reading of each registered service in
/// turn takes its own block of replies and ends with `outcomes[i]`, the
/// listing started by `get_services` comes to `listing_after(outcomes)`. The
/// first reading that fails (a missing unit is no failure) ends the listing
/// with its error, and no later service is read; otherwise every service has
/// its snapshot, in registry order: its state when read, or not installed when
/// its unit is missing.
pub proof fn law_listing_over_a_whole_run(
    task: ServicesTaskView,
    blocks: Seq<Seq<ReplyView>>,
    outcomes: Seq<Result<ServiceState, ErrorView>>,
)
    requires
        task == (ServicesTaskView::Reading {
            collected: Seq::empty(),
            current: reading_task(registry()[0]),
        }),
        blocks.len() == outcomes.len(),
        outcomes.len() <= registry().len(),
        forall|i: int|
            0 <= i < blocks.len() ==> reading_replies(registry()[i], #[trigger] blocks[i], outcomes[i]),
    ensures
        listing_run(task, joined(blocks)) == listing_after(outcomes),
    decreases blocks.len(),
{
    if blocks.len() == 0 {
        assert(snapshots_of(outcomes) =~= Seq::<ServiceView>::empty());
        assert(!exists|j: int| first_failure(outcomes, j));
    } else {
        let m = blocks.len() - 1;
        let earlier = outcomes.drop_last();
        assert forall|i: int| 0 <= i < blocks.drop_last().len() implies reading_replies(
            registry()[i],
            #[trigger] blocks.drop_last()[i],
            earlier[i],
        ) by {
            assert(blocks.drop_last()[i] == blocks[i]);
            assert(earlier[i] == outcomes[i]);
        }
        law_listing_over_a_whole_run(task, blocks.drop_last(), earlier);
        lemma_listing_run_append(task, joined(blocks.drop_last()), blocks.last());
        assert(reading_replies(registry()[m], blocks[m], outcomes[m]));
        if exists|j: int| first_failure(earlier, j) {
            let j = choose|j: int| first_failure(earlier, j);
            lemma_finished_listing_stays(listing_after(earlier), blocks.last());
            assert forall|i: int| 0 <= i < j implies #[trigger] snapshot(registry()[i], outcomes[i]) is Ok by {
                assert(earlier[i] == outcomes[i]);
                assert(snapshot(registry()[i], earlier[i]) is Ok);
            }
            assert(earlier[j] == outcomes[j]);
            assert(first_failure(outcomes, j));
            let f = choose|f: int| first_failure(outcomes, f);
            lemma_first_failure_unique(outcomes, f, j);
        } else {
            assert forall|i: int| 0 <= i < m implies #[trigger] snapshot(registry()[i], outcomes[i]) is Ok by {
                assert(earlier[i] == outcomes[i]);
                if snapshot(registry()[i], earlier[i]) is Err {
                    lemma_some_failure_is_first(earlier, i);
                }
            }
            lemma_one_reading(
                snapshots_of(earlier),
                m,
                InspectStageView::Load,
                blocks[m],
                outcomes[m],
            );
            match snapshot(registry()[m], outcomes[m]) {
                Ok(s) => {
                    assert(snapshots_of(earlier).push(s) =~= snapshots_of(outcomes));
                    if exists|j: int| first_failure(outcomes, j) {
                        let j = choose|j: int| first_failure(outcomes, j);
                        if j < m {
                            assert(snapshot(registry()[j], outcomes[j]) is Ok);
                        }
                    }
                },
                Err(e) => {
                    assert(first_failure(outcomes, m));
                    let f = choose|f: int| first_failure(outcomes, f);
                    lemma_first_failure_unique(outcomes, f, m);
                },
            }
        }
    }
}

/// A listing only ever asks for unprivileged reads.
pub proof fn law_listings_never_mutate(task: ServicesTaskView)
    requires
        listing_well_formed(task),
    ensures
        task matches ServicesTaskView::Reading { current, .. } ==> (task_request(current) matches Some(
            r,
        ) && !(r.query is Mutation)),
{
}

} // verus!
