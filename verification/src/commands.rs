//! The service registry and the operations offered to the user interface.
//!
//! Every operation is a task: it names the next run of `systemctl` it needs
//! ([`ServiceTask::request`] and its siblings), and takes the reply into
//! account (`resume`), until it is done. Whoever drives a task performs the
//! runs; every decision is taken here.
use vstd::prelude::*;

use crate::models::{
    error_of, failed_row, not_installed_state, service_of, succeeded_row, BulkResultView,
    BulkServiceResult, CommandError, DefinitionView, ErrorCode, ErrorView, Service,
    ServiceDefinition, ServiceState, ServiceView,
};
use crate::systemd::{
    action_completed, action_next, action_query, inspect, inspect_next, inspect_query, run_action,
    ActionRun, ActionRunView, ActionStage, ActionStageView, InspectStage, InspectStageView,
    Inspection, InspectionView, ReplyView, Request, RequestView, ServiceAction, SystemctlReply,
};
use crate::text::same_text;

verus! {

/// The only services systemd is ever asked about, in the order the user
/// interface shows them.
pub open spec fn registry() -> Seq<DefinitionView> {
    seq![
        DefinitionView { id: "postgresql"@, name: "PostgreSQL"@, unit: "postgresql.service"@ },
        DefinitionView { id: "docker"@, name: "Docker"@, unit: "docker.service"@ },
        DefinitionView { id: "mongodb"@, name: "MongoDB"@, unit: "mongod.service"@ },
    ]
}

/// The registered services. The user interface sends an `id`; the trusted
/// `unit` is looked up here.
pub fn registered_services() -> (services: Vec<ServiceDefinition>)
    ensures
        services@.len() == registry().len(),
        forall|i: int| 0 <= i < services@.len() ==> #[trigger] services@[i]@ == registry()[i],
{
    vec![
        ServiceDefinition { id: "postgresql", name: "PostgreSQL", unit: "postgresql.service" },
        ServiceDefinition { id: "docker", name: "Docker", unit: "docker.service" },
        ServiceDefinition { id: "mongodb", name: "MongoDB", unit: "mongod.service" },
    ]
}

/// The first definition in `definitions` with the given id.
pub open spec fn find_service(definitions: Seq<DefinitionView>, id: Seq<char>) -> Option<
    DefinitionView,
>
    decreases definitions.len(),
{
    if definitions.len() == 0 {
        None
    } else if definitions[0].id == id {
        Some(definitions[0])
    } else {
        find_service(definitions.drop_first(), id)
    }
}

pub open spec fn unknown_service_error() -> ErrorView {
    error_of(ErrorCode::UnknownService, "The requested service is not registered in BatRing."@)
}

/// What an id sent by the user interface resolves to.
pub open spec fn resolution(id: Seq<char>) -> Result<DefinitionView, ErrorView> {
    match find_service(registry(), id) {
        Some(definition) => Ok(definition),
        None => Err(unknown_service_error()),
    }
}

pub open spec fn definition_result(result: Result<ServiceDefinition, CommandError>) -> Result<
    DefinitionView,
    ErrorView,
> {
    match result {
        Ok(d) => Ok(d@),
        Err(e) => Err(e@),
    }
}

/// Look an id up in the registry. Anything that is not a registered id is
/// rejected before systemd is involved.
pub fn resolve_service(service_id: &str) -> (result: Result<ServiceDefinition, CommandError>)
    ensures
        definition_result(result) == resolution(service_id@),
{
    let services = registered_services();
    let mut i: usize = 0;
    assert(registry().subrange(0, registry().len() as int) =~= registry());
    while i < services.len()
        invariant
            services@.len() == registry().len(),
            forall|k: int| 0 <= k < services@.len() ==> #[trigger] services@[k]@ == registry()[k],
            i <= services.len(),
            find_service(registry(), service_id@) == find_service(
                registry().subrange(i as int, registry().len() as int),
                service_id@,
            ),
        decreases services.len() - i,
    {
        let candidate = services[i];
        assert(registry().subrange(i as int, registry().len() as int)[0] == candidate@);
        if same_text(candidate.id, service_id) {
            return Ok(candidate);
        }
        let ghost rest = registry().subrange(i as int, registry().len() as int);
        assert(rest.drop_first() =~= registry().subrange(i + 1, registry().len() as int));
        i = i + 1;
    }
    assert(registry().subrange(i as int, registry().len() as int).len() == 0);
    Err(
        CommandError::new(
            ErrorCode::UnknownService,
            "The requested service is not registered in BatRing.",
        ),
    )
}

pub open spec fn service_result(result: Result<Service, CommandError>) -> Result<
    ServiceView,
    ErrorView,
> {
    match result {
        Ok(s) => Ok(s@),
        Err(e) => Err(e@),
    }
}

/// The snapshot a reading of `definition` gives. A registered service whose
/// unit is missing is reported as not installed instead of failing, so one
/// absent service never hides the others.
pub open spec fn snapshot(
    definition: DefinitionView,
    inspection: Result<ServiceState, ErrorView>,
) -> Result<ServiceView, ErrorView> {
    match inspection {
        Ok(state) => Ok(service_of(definition, state)),
        Err(e) => if e.code == ErrorCode::UnitNotFound {
            Ok(service_of(definition, not_installed_state()))
        } else {
            Err(e)
        },
    }
}

pub open spec fn state_result(result: Result<ServiceState, CommandError>) -> Result<
    ServiceState,
    ErrorView,
> {
    match result {
        Ok(s) => Ok(s),
        Err(e) => Err(e@),
    }
}

pub fn service_from_inspection(
    service: ServiceDefinition,
    inspection: Result<ServiceState, CommandError>,
) -> (result: Result<Service, CommandError>)
    ensures
        service_result(result) == snapshot(service@, state_result(inspection)),
{
    match inspection {
        Ok(state) => Ok(Service::from_definition(service, state)),
        Err(error) => if error.code == ErrorCode::UnitNotFound {
            Ok(Service::not_installed(service))
        } else {
            Err(error)
        },
    }
}

/// An operation on one service: possibly a mutation, then a fresh reading.
#[derive(Debug)]
pub enum ServiceTask {
    Acting(ActionRun),
    Reading(Inspection),
    Finished(Result<Service, CommandError>),
}

pub enum ServiceTaskView {
    Acting(ActionRunView),
    Reading(InspectionView),
    Finished(Result<ServiceView, ErrorView>),
}

impl View for ServiceTask {
    type V = ServiceTaskView;

    open spec fn view(&self) -> ServiceTaskView {
        match self {
            ServiceTask::Acting(run) => ServiceTaskView::Acting(run@),
            ServiceTask::Reading(reading) => ServiceTaskView::Reading(reading@),
            ServiceTask::Finished(result) => ServiceTaskView::Finished(service_result(*result)),
        }
    }
}

/// A task in progress always has a request to make.
pub open spec fn task_well_formed(task: ServiceTaskView) -> bool {
    match task {
        ServiceTaskView::Acting(run) => !(run.stage is Done),
        ServiceTaskView::Reading(reading) => !(reading.stage is Done),
        ServiceTaskView::Finished(_) => true,
    }
}

/// The run of `systemctl` a task needs next.
pub open spec fn task_request(task: ServiceTaskView) -> Option<RequestView> {
    match task {
        ServiceTaskView::Acting(run) => match action_query(run.action, run.stage) {
            Some(query) => Some(RequestView { service: run.service, query }),
            None => None,
        },
        ServiceTaskView::Reading(reading) => match inspect_query(reading.stage) {
            Some(query) => Some(RequestView { service: reading.service, query }),
            None => None,
        },
        ServiceTaskView::Finished(_) => None,
    }
}

/// A fresh reading of a service.
pub open spec fn reading_task(definition: DefinitionView) -> ServiceTaskView {
    ServiceTaskView::Reading(InspectionView { service: definition, stage: InspectStageView::Load })
}

/// A mutation of a service, to be followed by a fresh reading.
pub open spec fn acting_task(definition: DefinitionView, action: ServiceAction) -> ServiceTaskView {
    ServiceTaskView::Acting(
        ActionRunView { service: definition, action, stage: ActionStageView::Load },
    )
}

/// Where a task goes on a reply. A failed mutation ends the task with its
/// error; a successful one is followed by a reading of the service.
pub open spec fn task_next(task: ServiceTaskView, reply: ReplyView) -> ServiceTaskView {
    match task {
        ServiceTaskView::Acting(run) => match action_next(run.service, run.action, run.stage, reply) {
            ActionStageView::Done(Ok(_)) => reading_task(run.service),
            ActionStageView::Done(Err(e)) => ServiceTaskView::Finished(Err(e)),
            stage => ServiceTaskView::Acting(ActionRunView { stage, ..run }),
        },
        ServiceTaskView::Reading(reading) => match inspect_next(reading.service, reading.stage, reply) {
            InspectStageView::Done(result) => ServiceTaskView::Finished(
                snapshot(reading.service, result),
            ),
            stage => ServiceTaskView::Reading(InspectionView { stage, ..reading }),
        },
        ServiceTaskView::Finished(result) => ServiceTaskView::Finished(result),
    }
}

/// A task that reads the current snapshot of a registered service.
pub fn read_service(service: ServiceDefinition) -> (task: ServiceTask)
    ensures
        task@ == reading_task(service@),
{
    ServiceTask::Reading(inspect(service))
}

/// A task that applies `action` to a service, then reads it again.
pub fn apply_action(service: ServiceDefinition, action: ServiceAction) -> (task: ServiceTask)
    ensures
        task@ == acting_task(service@, action),
{
    ServiceTask::Acting(run_action(service, action))
}

impl ServiceTask {
    pub fn is_done(&self) -> (done: bool)
        ensures
            done == (self@ is Finished),
    {
        match self {
            ServiceTask::Finished(_) => true,
            _ => false,
        }
    }

    /// The next run of `systemctl` needed, or `None` once finished.
    pub fn request(&self) -> (request: Option<Request>)
        ensures
            match task_request(self@) {
                Some(r) => request matches Some(q) && q@ == r,
                None => request is None,
            },
            task_well_formed(self@) ==> (request is None <==> self@ is Finished),
    {
        match self {
            ServiceTask::Acting(run) => run.request(),
            ServiceTask::Reading(reading) => reading.request(),
            ServiceTask::Finished(_) => None,
        }
    }

    /// Take the reply to the last request into account; once done, replies change nothing.
    pub fn resume(self, reply: SystemctlReply) -> (next: Self)
        requires
            task_well_formed(self@),
        ensures
            task_well_formed(next@),
            next@ == task_next(self@, reply@),
    {
        match self {
            ServiceTask::Acting(run) => {
                let run = run.resume(reply);
                let service = run.service;
                let action = run.action;
                match run.stage {
                    ActionStage::Done(Ok(())) => read_service(service),
                    ActionStage::Done(Err(e)) => ServiceTask::Finished(Err(e)),
                    stage => ServiceTask::Acting(ActionRun { service, action, stage }),
                }
            },
            ServiceTask::Reading(reading) => {
                let reading = reading.resume(reply);
                let service = reading.service;
                match reading.stage {
                    InspectStage::Done(result) => ServiceTask::Finished(
                        service_from_inspection(service, result),
                    ),
                    stage => ServiceTask::Reading(Inspection { service, stage }),
                }
            },
            ServiceTask::Finished(result) => ServiceTask::Finished(result),
        }
    }

    /// The task's result, once it is done.
    pub fn outcome(self) -> (result: Option<Result<Service, CommandError>>)
        ensures
            match self@ {
                ServiceTaskView::Finished(r) => result matches Some(x) && service_result(x) == r,
                _ => result is None,
            },
    {
        match self {
            ServiceTask::Finished(result) => Some(result),
            _ => None,
        }
    }
}

/// A task that ends at once with `error`.
fn failed_task(error: CommandError) -> (task: ServiceTask)
    ensures
        task@ == ServiceTaskView::Finished(Err(error@)),
{
    ServiceTask::Finished(Err(error))
}

/// The task a single-service operation starts with: a failed resolution ends
/// it at once, without any request.
pub open spec fn resolved_task(id: Seq<char>, action: Option<ServiceAction>) -> ServiceTaskView {
    match resolution(id) {
        Ok(definition) => match action {
            Some(a) => acting_task(definition, a),
            None => reading_task(definition),
        },
        Err(e) => ServiceTaskView::Finished(Err(e)),
    }
}

/// Read the current snapshot of the service with this id.
pub fn get_service_status(service_id: String) -> (task: ServiceTask)
    ensures
        task@ == resolved_task(service_id@, None),
        task_well_formed(task@),
{
    match resolve_service(service_id.as_str()) {
        Ok(service) => read_service(service),
        Err(error) => failed_task(error),
    }
}

fn perform_action(service_id: &str, action: ServiceAction) -> (task: ServiceTask)
    ensures
        task@ == resolved_task(service_id@, Some(action)),
        task_well_formed(task@),
{
    match resolve_service(service_id) {
        Ok(service) => apply_action(service, action),
        Err(error) => failed_task(error),
    }
}

pub fn start_service(service_id: String) -> (task: ServiceTask)
    ensures
        task@ == resolved_task(service_id@, Some(ServiceAction::Start)),
        task_well_formed(task@),
{
    perform_action(service_id.as_str(), ServiceAction::Start)
}

pub fn stop_service(service_id: String) -> (task: ServiceTask)
    ensures
        task@ == resolved_task(service_id@, Some(ServiceAction::Stop)),
        task_well_formed(task@),
{
    perform_action(service_id.as_str(), ServiceAction::Stop)
}

pub fn restart_service(service_id: String) -> (task: ServiceTask)
    ensures
        task@ == resolved_task(service_id@, Some(ServiceAction::Restart)),
        task_well_formed(task@),
{
    perform_action(service_id.as_str(), ServiceAction::Restart)
}

pub fn enable_service(service_id: String) -> (task: ServiceTask)
    ensures
        task@ == resolved_task(service_id@, Some(ServiceAction::Enable)),
        task_well_formed(task@),
{
    perform_action(service_id.as_str(), ServiceAction::Enable)
}

pub fn disable_service(service_id: String) -> (task: ServiceTask)
    ensures
        task@ == resolved_task(service_id@, Some(ServiceAction::Disable)),
        task_well_formed(task@),
{
    perform_action(service_id.as_str(), ServiceAction::Disable)
}

/// The snapshots of services, as text.
pub open spec fn service_views(services: Seq<Service>) -> Seq<ServiceView> {
    services.map_values(|s: Service| s@)
}

/// The snapshots are those of the first registered services, in order.
pub open spec fn follows_registry(snapshots: Seq<ServiceView>) -> bool {
    &&& snapshots.len() <= registry().len()
    &&& forall|i: int|
        0 <= i < snapshots.len() ==> {
            &&& #[trigger] snapshots[i].id == registry()[i].id
            &&& snapshots[i].name == registry()[i].name
            &&& snapshots[i].unit == registry()[i].unit
        }
}

/// Reading every registered service in order. The first error ends the whole
/// listing; a missing unit is no error, it reads as not installed.
#[derive(Debug)]
pub enum ServicesTask {
    Reading { collected: Vec<Service>, current: ServiceTask },
    Finished(Result<Vec<Service>, CommandError>),
}

pub enum ServicesTaskView {
    Reading { collected: Seq<ServiceView>, current: ServiceTaskView },
    Finished(Result<Seq<ServiceView>, ErrorView>),
}

pub open spec fn services_result(result: Result<Vec<Service>, CommandError>) -> Result<
    Seq<ServiceView>,
    ErrorView,
> {
    match result {
        Ok(v) => Ok(service_views(v@)),
        Err(e) => Err(e@),
    }
}

impl View for ServicesTask {
    type V = ServicesTaskView;

    open spec fn view(&self) -> ServicesTaskView {
        match self {
            ServicesTask::Reading { collected, current } => ServicesTaskView::Reading {
                collected: service_views(collected@),
                current: current@,
            },
            ServicesTask::Finished(result) => ServicesTaskView::Finished(services_result(*result)),
        }
    }
}

/// A listing in progress is reading the next registered service; a finished
/// listing holds one snapshot per registered service, in registry order.
pub open spec fn listing_well_formed(task: ServicesTaskView) -> bool {
    match task {
        ServicesTaskView::Reading { collected, current } => {
            &&& collected.len() < registry().len()
            &&& follows_registry(collected)
            &&& task_well_formed(current)
            &&& current matches ServiceTaskView::Reading(reading)
            &&& reading.service == registry()[collected.len() as int]
        },
        ServicesTaskView::Finished(Ok(snapshots)) => {
            &&& snapshots.len() == registry().len()
            &&& follows_registry(snapshots)
        },
        ServicesTaskView::Finished(Err(_)) => true,
    }
}

/// Where a listing goes on a reply.
pub open spec fn listing_next(task: ServicesTaskView, reply: ReplyView) -> ServicesTaskView {
    match task {
        ServicesTaskView::Reading { collected, current } => match task_next(current, reply) {
            ServiceTaskView::Finished(Ok(snapshot)) => {
                let more = collected.push(snapshot);
                if more.len() == registry().len() {
                    ServicesTaskView::Finished(Ok(more))
                } else {
                    ServicesTaskView::Reading {
                        collected: more,
                        current: reading_task(registry()[more.len() as int]),
                    }
                }
            },
            ServiceTaskView::Finished(Err(e)) => ServicesTaskView::Finished(Err(e)),
            next => ServicesTaskView::Reading { collected, current: next },
        },
        ServicesTaskView::Finished(result) => ServicesTaskView::Finished(result),
    }
}

/// Read every registered service, in registry order.
pub fn get_services() -> (task: ServicesTask)
    ensures
        task@ == (ServicesTaskView::Reading {
            collected: Seq::empty(),
            current: reading_task(registry()[0]),
        }),
        listing_well_formed(task@),
{
    let services = registered_services();
    let collected: Vec<Service> = Vec::new();
    assert(service_views(collected@) =~= Seq::empty());
    ServicesTask::Reading { collected, current: read_service(services[0]) }
}

impl ServicesTask {
    pub fn is_done(&self) -> (done: bool)
        ensures
            done == (self@ is Finished),
    {
        match self {
            ServicesTask::Finished(_) => true,
            _ => false,
        }
    }

    /// The next run of `systemctl` this listing needs, or `None` when it is done.
    pub fn request(&self) -> (request: Option<Request>)
        requires
            listing_well_formed(self@),
        ensures
            match self@ {
                ServicesTaskView::Reading { current, .. } => request matches Some(q) && task_request(
                    current,
                ) == Some(q@),
                ServicesTaskView::Finished(_) => request is None,
            },
    {
        match self {
            ServicesTask::Reading { current, .. } => current.request(),
            ServicesTask::Finished(_) => None,
        }
    }

    /// Take the reply to the last request into account; once done, replies change nothing.
    pub fn resume(self, reply: SystemctlReply) -> (next: Self)
        requires
            listing_well_formed(self@),
        ensures
            listing_well_formed(next@),
            next@ == listing_next(self@, reply@),
    {
        match self {
            ServicesTask::Reading { collected, current } => {
                let ghost before = service_views(collected@);
                let next = current.resume(reply);
                match next {
                    ServiceTask::Finished(Ok(snapshot)) => {
                        let mut collected = collected;
                        collected.push(snapshot);
                        assert(service_views(collected@) =~= before.push(snapshot@));
                        let services = registered_services();
                        if collected.len() == services.len() {
                            ServicesTask::Finished(Ok(collected))
                        } else {
                            let following = services[collected.len()];
                            ServicesTask::Reading { collected, current: read_service(following) }
                        }
                    },
                    ServiceTask::Finished(Err(e)) => ServicesTask::Finished(Err(e)),
                    next => ServicesTask::Reading { collected, current: next },
                }
            },
            ServicesTask::Finished(result) => ServicesTask::Finished(result),
        }
    }

    /// The listing's result, once it is done.
    pub fn outcome(self) -> (result: Option<Result<Vec<Service>, CommandError>>)
        ensures
            match self@ {
                ServicesTaskView::Finished(r) => result matches Some(x) && services_result(x) == r,
                _ => result is None,
            },
    {
        match self {
            ServicesTask::Finished(result) => Some(result),
            _ => None,
        }
    }
}


/// Authorization outcomes after which the remaining services are not tried:
/// the one prompt was refused, or no agent answered it.
pub open spec fn aborts(code: ErrorCode) -> bool {
    code == ErrorCode::AuthorizationCancelled || code == ErrorCode::PermissionDenied
}

pub fn aborts_bulk(code: ErrorCode) -> (abort: bool)
    ensures
        abort == aborts(code),
{
    matches!(code, ErrorCode::AuthorizationCancelled | ErrorCode::PermissionDenied)
}

pub open spec fn skipped_error() -> ErrorView {
    error_of(ErrorCode::AuthorizationCancelled, "Skipped because authorization did not succeed."@)
}

/// The rows of the registered services from position `from` on, all skipped.
pub open spec fn skipped_rows(from: int) -> Seq<BulkResultView> {
    Seq::new(
        (registry().len() - from) as nat,
        |j: int| failed_row(registry()[from + j], skipped_error()),
    )
}

/// The row of one service, from what applying the action to it gave.
pub open spec fn outcome_row(
    action: ServiceAction,
    definition: DefinitionView,
    outcome: Result<ServiceView, ErrorView>,
) -> BulkResultView {
    match outcome {
        Ok(service) => succeeded_row(service, action_completed(action)),
        Err(e) => failed_row(definition, e),
    }
}

/// The rows after recording the outcome for the next registered service. An
/// authorization failure marks every remaining service as skipped.
pub open spec fn recorded(
    action: ServiceAction,
    rows: Seq<BulkResultView>,
    outcome: Result<ServiceView, ErrorView>,
) -> Seq<BulkResultView> {
    let k = rows.len() as int;
    let more = rows.push(outcome_row(action, registry()[k], outcome));
    if outcome matches Err(e) && aborts(e.code) {
        more + skipped_rows(k + 1)
    } else {
        more
    }
}

pub open spec fn row_views(rows: Seq<BulkServiceResult>) -> Seq<BulkResultView> {
    rows.map_values(|r: BulkServiceResult| r@)
}

/// The decisions of a bulk operation: which registered service comes next,
/// and what row each outcome gives. One failing service does not stop the
/// others, except for an authorization failure.
#[derive(Debug)]
pub struct BulkRun {
    pub action: ServiceAction,
    pub results: Vec<BulkServiceResult>,
}

pub struct BulkRunView {
    pub action: ServiceAction,
    pub results: Seq<BulkResultView>,
}

impl View for BulkRun {
    type V = BulkRunView;

    open spec fn view(&self) -> BulkRunView {
        BulkRunView { action: self.action, results: row_views(self.results@) }
    }
}

impl BulkRun {
    pub fn new(action: ServiceAction) -> (run: Self)
        ensures
            run@.action == action,
            run@.results == Seq::<BulkResultView>::empty(),
    {
        let run = BulkRun { action, results: Vec::new() };
        assert(run@.results =~= Seq::<BulkResultView>::empty());
        run
    }

    /// The registered service to try next, or `None` when every registered
    /// service has its row.
    pub fn next_service(&self) -> (next: Option<ServiceDefinition>)
        ensures
            self@.results.len() < registry().len() ==> (next matches Some(d) && d@ == registry()[self@.results.len() as int]),
            self@.results.len() >= registry().len() ==> next is None,
    {
        let services = registered_services();
        if self.results.len() < services.len() {
            Some(services[self.results.len()])
        } else {
            None
        }
    }

    /// Record what applying the action to the next registered service gave.
    pub fn record(&mut self, outcome: Result<Service, CommandError>)
        requires
            old(self)@.results.len() < registry().len(),
        ensures
            final(self)@.action == old(self)@.action,
            final(self)@.results == recorded(old(self)@.action, old(self)@.results, service_result(outcome)),
            final(self)@.results.len() <= registry().len(),
    {
        let ghost before = self@.results;
        let services = registered_services();
        let k = self.results.len();
        let definition = services[k];
        let abort = match &outcome {
            Ok(_) => false,
            Err(error) => aborts_bulk(error.code),
        };
        let row = match outcome {
            Ok(updated) => BulkServiceResult::succeeded(updated, self.action.completed_message()),
            Err(error) => BulkServiceResult::failed(definition, error),
        };
        self.results.push(row);
        let ghost more = before.push(outcome_row(self.action, registry()[k as int], service_result(outcome)));
        assert(self@.results =~= more);
        if abort {
            let mut j = k + 1;
            while j < services.len()
                invariant
                    services@.len() == registry().len(),
                    forall|i: int| 0 <= i < services@.len() ==> #[trigger] services@[i]@ == registry()[i],
                    k < j <= services.len(),
                    more.len() == k + 1,
                    self.action == old(self).action,
                    row_views(self.results@) == more + skipped_rows(k + 1).take(j - k - 1),
                decreases services.len() - j,
            {
                let skipped = BulkServiceResult::failed(
                    services[j],
                    CommandError::new(
                        ErrorCode::AuthorizationCancelled,
                        "Skipped because authorization did not succeed.",
                    ),
                );
                let ghost rows = row_views(self.results@);
                self.results.push(skipped);
                assert(row_views(self.results@) =~= rows.push(skipped@));
                assert(skipped_rows(k + 1).take(j + 1 - k - 1) =~= skipped_rows(k + 1).take(
                    j - k - 1,
                ).push(skipped_rows(k + 1)[j - k - 1]));
                j = j + 1;
            }
            assert(skipped_rows(k + 1).take(services.len() - k - 1) =~= skipped_rows(k + 1));
        }
    }

    /// The rows, one per registered service, once every one has its row.
    pub fn results(self) -> (rows: Vec<BulkServiceResult>)
        ensures
            row_views(rows@) == self@.results,
    {
        self.results
    }
}

/// Every row so far belongs to the registered service at its position.
pub open spec fn rows_follow_registry(rows: Seq<BulkResultView>) -> bool {
    &&& rows.len() <= registry().len()
    &&& forall|i: int|
        0 <= i < rows.len() ==> {
            &&& #[trigger] rows[i].service_id == registry()[i].id
            &&& rows[i].name == registry()[i].name
        }
}

/// Recording an outcome whose snapshot is of the next registered service keeps
/// the rows in registry order.
proof fn lemma_recorded_follows_registry(
    action: ServiceAction,
    rows: Seq<BulkResultView>,
    outcome: Result<ServiceView, ErrorView>,
)
    requires
        rows_follow_registry(rows),
        rows.len() < registry().len(),
        outcome matches Ok(s) ==> (s.id == registry()[rows.len() as int].id && s.name
            == registry()[rows.len() as int].name),
    ensures
        rows_follow_registry(recorded(action, rows, outcome)),
        recorded(action, rows, outcome).len() <= registry().len(),
{
    let k = rows.len() as int;
    let more = rows.push(outcome_row(action, registry()[k], outcome));
    assert(rows_follow_registry(more));
    if outcome matches Err(e) && aborts(e.code) {
        let all = more + skipped_rows(k + 1);
        assert forall|i: int| 0 <= i < all.len() implies {
            &&& #[trigger] all[i].service_id == registry()[i].id
            &&& all[i].name == registry()[i].name
        } by {
            if i > k {
                assert(all[i] == skipped_rows(k + 1)[i - k - 1]);
            }
        }
    }
}

/// The service a task in progress is about.
pub open spec fn task_service(task: ServiceTaskView) -> Option<DefinitionView> {
    match task {
        ServiceTaskView::Acting(run) => Some(run.service),
        ServiceTaskView::Reading(reading) => Some(reading.service),
        ServiceTaskView::Finished(_) => None,
    }
}

/// Applying one action to every registered service, in registry order.
#[derive(Debug)]
pub struct BulkTask {
    pub run: BulkRun,
    pub current: Option<ServiceTask>,
}

pub struct BulkTaskView {
    pub run: BulkRunView,
    pub current: Option<ServiceTaskView>,
}

impl View for BulkTask {
    type V = BulkTaskView;

    open spec fn view(&self) -> BulkTaskView {
        BulkTaskView {
            run: self.run@,
            current: match self.current {
                Some(task) => Some(task@),
                None => None,
            },
        }
    }
}

/// Rows follow the registry; while services remain, the task in progress is
/// the action applied to the next one.
pub open spec fn bulk_well_formed(task: BulkTaskView) -> bool {
    &&& rows_follow_registry(task.run.results)
    &&& match task.current {
        Some(current) => {
            &&& task.run.results.len() < registry().len()
            &&& task_well_formed(current)
            &&& !(current is Finished)
            &&& task_service(current) == Some(registry()[task.run.results.len() as int])
            &&& (current matches ServiceTaskView::Acting(run) ==> run.action == task.run.action)
        },
        None => task.run.results.len() == registry().len(),
    }
}

/// Where a bulk operation goes on a reply.
pub open spec fn bulk_next(task: BulkTaskView, reply: ReplyView) -> BulkTaskView {
    match task.current {
        Some(current) => match task_next(current, reply) {
            ServiceTaskView::Finished(outcome) => {
                let results = recorded(task.run.action, task.run.results, outcome);
                BulkTaskView {
                    run: BulkRunView { action: task.run.action, results },
                    current: if results.len() < registry().len() {
                        Some(acting_task(registry()[results.len() as int], task.run.action))
                    } else {
                        None
                    },
                }
            },
            next => BulkTaskView { run: task.run, current: Some(next) },
        },
        None => task,
    }
}

/// Apply `action` to every registered service and report each outcome.
pub fn perform_bulk_action(action: ServiceAction) -> (task: BulkTask)
    ensures
        task@.run.action == action,
        task@.run.results == Seq::<BulkResultView>::empty(),
        task@.current == Some(acting_task(registry()[0], action)),
        bulk_well_formed(task@),
{
    let services = registered_services();
    BulkTask { run: BulkRun::new(action), current: Some(apply_action(services[0], action)) }
}

impl BulkTask {
    pub fn is_done(&self) -> (done: bool)
        ensures
            done == (self@.current is None),
    {
        self.current.is_none()
    }

    /// The next run of `systemctl` this operation needs, or `None` when done.
    pub fn request(&self) -> (request: Option<Request>)
        requires
            bulk_well_formed(self@),
        ensures
            match self@.current {
                Some(current) => request matches Some(q) && task_request(current) == Some(q@),
                None => request is None,
            },
    {
        match &self.current {
            Some(current) => current.request(),
            None => None,
        }
    }

    /// Take the reply to the last request into account; once done, replies change nothing.
    pub fn resume(self, reply: SystemctlReply) -> (next: Self)
        requires
            bulk_well_formed(self@),
        ensures
            bulk_well_formed(next@),
            next@ == bulk_next(self@, reply@),
    {
        let BulkTask { mut run, current } = self;
        match current {
            Some(task) => {
                let task = task.resume(reply);
                match task {
                    ServiceTask::Finished(outcome) => {
                        let ghost rows = run@.results;
                        proof {
                            lemma_recorded_follows_registry(run@.action, rows, service_result(outcome));
                        }
                        run.record(outcome);
                        assert(rows_follow_registry(run@.results));
                        let current = match run.next_service() {
                            Some(service) => Some(apply_action(service, run.action)),
                            None => None,
                        };
                        BulkTask { run, current }
                    },
                    next => BulkTask { run, current: Some(next) },
                }
            },
            None => BulkTask { run, current: None },
        }
    }

    /// One row per registered service, in registry order, once done.
    pub fn outcome(self) -> (rows: Option<Vec<BulkServiceResult>>)
        ensures
            match self@.current {
                Some(_) => rows is None,
                None => rows matches Some(r) && row_views(r@) == self@.run.results,
            },
    {
        match self.current {
            Some(_) => None,
            None => Some(self.run.results()),
        }
    }
}

pub fn start_all_services() -> (task: BulkTask)
    ensures
        task@.run.action == ServiceAction::Start,
        task@.run.results == Seq::<BulkResultView>::empty(),
        task@.current == Some(acting_task(registry()[0], ServiceAction::Start)),
        bulk_well_formed(task@),
{
    perform_bulk_action(ServiceAction::Start)
}

pub fn stop_all_services() -> (task: BulkTask)
    ensures
        task@.run.action == ServiceAction::Stop,
        task@.run.results == Seq::<BulkResultView>::empty(),
        task@.current == Some(acting_task(registry()[0], ServiceAction::Stop)),
        bulk_well_formed(task@),
{
    perform_bulk_action(ServiceAction::Stop)
}

pub fn restart_all_services() -> (task: BulkTask)
    ensures
        task@.run.action == ServiceAction::Restart,
        task@.run.results == Seq::<BulkResultView>::empty(),
        task@.current == Some(acting_task(registry()[0], ServiceAction::Restart)),
        bulk_well_formed(task@),
{
    perform_bulk_action(ServiceAction::Restart)
}

pub fn enable_all_services() -> (task: BulkTask)
    ensures
        task@.run.action == ServiceAction::Enable,
        task@.run.results == Seq::<BulkResultView>::empty(),
        task@.current == Some(acting_task(registry()[0], ServiceAction::Enable)),
        bulk_well_formed(task@),
{
    perform_bulk_action(ServiceAction::Enable)
}

pub fn disable_all_services() -> (task: BulkTask)
    ensures
        task@.run.action == ServiceAction::Disable,
        task@.run.results == Seq::<BulkResultView>::empty(),
        task@.current == Some(acting_task(registry()[0], ServiceAction::Disable)),
        bulk_well_formed(task@),
{
    perform_bulk_action(ServiceAction::Disable)
}

} // verus!
