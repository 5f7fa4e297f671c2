//! The workflow manager, driven over storage and a runtime kept in memory.

use pi_coding::workflow::manager::{
    ensure_allowed, safe_store_diagnostic, validate_runtime_projection, validate_status,
    ManagerAction, ManagerPoint, ManagerReply, Step, WorkflowAction, WorkflowManager,
};
use pi_coding::workflow::records::{
    WorkflowCreateRequest, WorkflowEvent, WorkflowFailure, WorkflowIntegration,
    WorkflowRuntimeIdentity, WorkflowRuntimeRequest, WorkflowRuntimeUpdate, WorkflowSnapshot,
    WorkflowStoreDiagnostic,
};
use pi_coding::workflow::store::{StoreDiagnostic, StoreDiagnosticKind};
use pi_coding::workflow::todo::TodoState;
use pi_coding::workflow::{WorkflowId, WorkflowStatus};
use std::collections::{BTreeMap, HashMap, VecDeque};


#[derive(Clone, Copy, Debug, PartialEq, Eq, Hash)]
enum Call {
    Create,
    Restore,
    Pause,
    Resume,
    Cancel,
    Integrate,
    Remove,
}

#[derive(Clone, Copy, PartialEq, Eq)]
enum Failpoint {
    SelectAfterWrite,
    CreateSelectionAfterWrite,
    PersistAfterWrite,
    RemoveSelectionAfterWrite,
    RemoveAfterDelete,
}

fn todo() -> TodoState {
    TodoState { phases: Vec::new() }
}

fn identity() -> WorkflowRuntimeIdentity {
    WorkflowRuntimeIdentity {
        worktree_label: Some("private-worktree".to_owned()),
        branch: Some("private-branch".to_owned()),
        supervisor_agent_id: Some("private-agent".to_owned()),
        supervisor_job_id: Some("private-job".to_owned()),
        todo: todo(),
    }
}

fn update(status: WorkflowStatus) -> WorkflowRuntimeUpdate {
    WorkflowRuntimeUpdate {
        status,
        todo: todo(),
        supervisor_agent_id: Some("updated-private-agent".to_owned()),
        supervisor_job_id: Some("updated-private-job".to_owned()),
        failure: None,
        integration: WorkflowIntegration::NotIntegrated,
    }
}

fn request(name: &str) -> WorkflowCreateRequest {
    WorkflowCreateRequest { name: name.to_owned(), objective: format!("objective-{name}") }
}

#[derive(Default)]
struct Disk {
    records: BTreeMap<String, WorkflowSnapshot>,
    selection: Option<String>,
}

#[derive(Default)]
struct Factory {
    calls: Vec<(Call, String)>,
    failures: HashMap<Call, VecDeque<String>>,
    create_projection: Vec<WorkflowRuntimeUpdate>,
    integrate_outcome: Option<WorkflowStatus>,
    resume_outcome: Option<WorkflowStatus>,
}

impl Factory {
    fn record(&mut self, call: Call, id: &WorkflowId) -> bool {
        self.calls.push((call, id.as_str().to_owned()));
        self.failures.get_mut(&call).and_then(VecDeque::pop_front).is_none()
    }

    fn fail(&mut self, call: Call, message: &str) {
        self.failures.entry(call).or_default().push_back(message.to_owned());
    }

    fn count(&self, call: Call) -> usize {
        self.calls.iter().filter(|(seen, _)| *seen == call).count()
    }
}

struct Host {
    manager: WorkflowManager,
    disk: Disk,
    factory: Factory,
    failpoints: Vec<Failpoint>,
    clock: u64,
}

impl Host {
    fn new() -> Host {
        Host::over(Disk::default())
    }

    fn over(disk: Disk) -> Host {
        let records = disk.records.values().cloned().collect();
        let selection = disk.selection.as_deref().map(WorkflowId::new);
        Host {
            manager: WorkflowManager::open(records, selection, Vec::new()),
            disk,
            factory: Factory::default(),
            failpoints: Vec::new(),
            clock: 1_000,
        }
    }

    /// A manager over what is on disk now.
    fn reload(&self) -> WorkflowManager {
        let records = self.disk.records.values().cloned().collect();
        let selection = self.disk.selection.as_deref().map(WorkflowId::new);
        WorkflowManager::open(records, selection, Vec::new())
    }

    fn take(&mut self, failpoint: Failpoint) -> bool {
        match self.failpoints.iter().position(|f| *f == failpoint) {
            Some(at) => {
                self.failpoints.remove(at);
                true
            }
            None => false,
        }
    }

    fn perform(&mut self, action: ManagerAction, point: &ManagerPoint) -> ManagerReply {
        match action {
            ManagerAction::CreateRuntime(request) => {
                if !self.factory.record(Call::Create, &request.workflow_id) {
                    return ManagerReply::Identity(None);
                }
                for update in std::mem::take(&mut self.factory.create_projection) {
                    let step = self.manager.project_runtime_update(
                        &request.workflow_id,
                        request.generation,
                        update,
                        self.clock,
                    );
                    assert!(matches!(step.0, ManagerAction::Finish(Ok(ref found)) if found.is_empty()));
                }
                ManagerReply::Identity(Some(identity()))
            }
            ManagerAction::RestoreRuntime(request, _) => {
                let ok = self.factory.record(Call::Restore, &request.workflow_id);
                ManagerReply::Identity(if ok { Some(identity()) } else { None })
            }
            ManagerAction::MoveRuntime(action, snapshot) => {
                let (call, status) = match action {
                    WorkflowAction::Pause => (Call::Pause, WorkflowStatus::Paused),
                    WorkflowAction::Resume => (
                        Call::Resume,
                        self.factory.resume_outcome.unwrap_or(WorkflowStatus::Running),
                    ),
                    WorkflowAction::Cancel => (Call::Cancel, WorkflowStatus::Cancelled),
                    WorkflowAction::Integrate => (
                        Call::Integrate,
                        self.factory.integrate_outcome.unwrap_or(WorkflowStatus::Conflicted),
                    ),
                };
                if !self.factory.record(call, &snapshot.workflow_id) {
                    return ManagerReply::Update(None);
                }
                let mut update = update(status);
                if call == Call::Integrate {
                    update.integration = match status {
                        WorkflowStatus::Completed => WorkflowIntegration::Applied {
                            result_commit: "private-result-commit".to_owned(),
                        },
                        WorkflowStatus::Conflicted => WorkflowIntegration::Conflicted {
                            conflicts: vec!["private/path".to_owned()],
                        },
                        _ => WorkflowIntegration::NotIntegrated,
                    };
                }
                ManagerReply::Update(Some(update))
            }
            ManagerAction::RemoveRuntime(snapshot) => {
                ManagerReply::Worked(self.factory.record(Call::Remove, &snapshot.workflow_id))
            }
            ManagerAction::WriteRecord(snapshot) => {
                let id = snapshot.workflow_id.as_str().to_owned();
                self.disk.records.insert(id, snapshot);
                let failed = matches!(point, ManagerPoint::Replacing { .. })
                    && self.take(Failpoint::PersistAfterWrite);
                ManagerReply::Worked(!failed)
            }
            ManagerAction::RemoveRecord(id) => {
                self.disk.records.remove(id.as_str());
                let failed = matches!(point, ManagerPoint::Erasing { .. })
                    && self.take(Failpoint::RemoveAfterDelete);
                ManagerReply::Worked(!failed)
            }
            ManagerAction::WriteSelection(id) => {
                self.disk.selection = id.map(|id| id.as_str().to_owned());
                let failed = match point {
                    ManagerPoint::Choosing { .. } => self.take(Failpoint::SelectAfterWrite),
                    ManagerPoint::Selecting { .. } => {
                        self.take(Failpoint::CreateSelectionAfterWrite)
                    }
                    ManagerPoint::Deselecting { .. } => {
                        self.take(Failpoint::RemoveSelectionAfterWrite)
                    }
                    _ => false,
                };
                ManagerReply::Worked(!failed)
            }
            ManagerAction::Finish(_) => unreachable!("a finished operation needs no reply"),
        }
    }

    fn run(&mut self, step: Step) -> Result<Vec<WorkflowSnapshot>, String> {
        let (mut action, mut point) = step;
        loop {
            if let ManagerAction::Finish(outcome) = action {
                return outcome;
            }
            let reply = self.perform(action, &point);
            self.clock += 1;
            let next = self.manager.advance(point, reply, self.clock);
            action = next.0;
            point = next.1;
        }
    }

    fn one(&mut self, step: Step) -> Result<WorkflowSnapshot, String> {
        self.run(step).map(|found| {
            assert_eq!(found.len(), 1);
            found.into_iter().next().expect("one snapshot")
        })
    }

    fn create(&mut self, name: &str) -> Result<WorkflowSnapshot, String> {
        let step = self.manager.create(request(name));
        self.one(step)
    }

    fn created(&mut self, name: &str) -> WorkflowSnapshot {
        self.create(name).expect("create workflow")
    }

    fn pause(&mut self, s: &WorkflowSnapshot) -> Result<WorkflowSnapshot, String> {
        let step = self.manager.pause(&s.workflow_id, s.generation);
        self.one(step)
    }

    fn resume(&mut self, s: &WorkflowSnapshot) -> Result<WorkflowSnapshot, String> {
        let step = self.manager.resume(&s.workflow_id, s.generation);
        self.one(step)
    }

    fn cancel(&mut self, s: &WorkflowSnapshot) -> Result<WorkflowSnapshot, String> {
        let step = self.manager.cancel(&s.workflow_id, s.generation);
        self.one(step)
    }

    fn integrate(&mut self, s: &WorkflowSnapshot) -> Result<WorkflowSnapshot, String> {
        let step = self.manager.integrate(&s.workflow_id, s.generation);
        self.one(step)
    }

    fn remove(&mut self, s: &WorkflowSnapshot) -> Result<WorkflowSnapshot, String> {
        let step = self.manager.remove(&s.workflow_id, s.generation);
        self.one(step)
    }

    fn project(
        &mut self,
        id: &WorkflowId,
        generation: u64,
        status: WorkflowStatus,
    ) -> Result<WorkflowSnapshot, String> {
        let clock = self.clock;
        let step = self.manager.project_runtime_update(id, generation, update(status), clock);
        self.one(step)
    }

    fn cancelled(&mut self, name: &str) -> WorkflowSnapshot {
        let snapshot = self.created(name);
        self.cancel(&snapshot).expect("cancel workflow")
    }
}

fn error<T>(outcome: Result<T, String>) -> String {
    match outcome {
        Ok(_) => panic!("the operation must fail"),
        Err(error) => error,
    }
}

fn is_snapshot(found: Result<WorkflowSnapshot, String>, wanted: &WorkflowSnapshot) -> bool {
    matches!(found, Ok(ref s) if s == wanted)
}

#[test]
fn concurrent_duplicate_names_have_one_durable_winner() {
    let mut host = Host::new();
    let first = host.manager.create(request("same"));
    let second = host.manager.create(request("same"));
    let outcomes = [host.run(second), host.run(first)];
    assert_eq!(outcomes.iter().filter(|result| result.is_ok()).count(), 1);
    assert_eq!(
        outcomes
            .iter()
            .filter(|result| matches!(result, Err(e) if e == "workflow name already exists"))
            .count(),
        1
    );
    assert_eq!(host.reload().list().len(), 1);
}

#[test]
fn stale_generation_is_rejected_before_factory_call() {
    let mut host = Host::new();
    let snapshot = host.created("stale");
    let step = host.manager.pause(&snapshot.workflow_id, snapshot.generation + 1);
    assert_eq!(error(host.one(step)), "workflow generation is stale");
    assert_eq!(host.factory.count(Call::Pause), 0);
}

#[test]
fn remove_failure_restores_runtime_record_selection_and_memory() {
    let mut host = Host::new();
    let snapshot = host.cancelled("remove-rollback");
    host.failpoints.push(Failpoint::RemoveAfterDelete);
    assert_eq!(error(host.remove(&snapshot)), "workflow removal could not be committed");
    assert_eq!(host.factory.count(Call::Restore), 1);
    assert!(is_snapshot(host.manager.get(&snapshot.workflow_id), &snapshot));
    assert!(host.manager.selected() == Some(snapshot.clone()));
    let reopened = host.reload();
    assert!(is_snapshot(reopened.get(&snapshot.workflow_id), &snapshot));
    assert!(reopened.selected() == Some(snapshot));
}

#[test]
fn remove_non_terminal_auto_cancels_then_removes() {
    let mut host = Host::new();
    let snapshot = host.created("auto-cancel");
    let planning = host
        .project(&snapshot.workflow_id, snapshot.generation, WorkflowStatus::Planning)
        .expect("project planning");
    assert_eq!(planning.status, WorkflowStatus::Planning);
    let removed = host.remove(&planning).expect("remove auto-cancels");
    assert_eq!(removed.status, WorkflowStatus::Cancelled);
    let id = planning.workflow_id.as_str().to_owned();
    assert_eq!(
        host.factory.calls,
        vec![(Call::Create, id.clone()), (Call::Cancel, id.clone()), (Call::Remove, id)]
    );
    assert!(host.manager.list().is_empty());
}

#[test]
fn remove_terminal_skips_cancel() {
    let mut host = Host::new();
    let snapshot = host.cancelled("terminal-remove");
    let removed = host.remove(&snapshot).expect("remove terminal");
    assert!(removed == snapshot);
    let id = snapshot.workflow_id.as_str().to_owned();
    assert_eq!(
        host.factory.calls,
        vec![(Call::Create, id.clone()), (Call::Cancel, id.clone()), (Call::Remove, id)]
    );
    assert!(host.manager.list().is_empty());
}

#[test]
fn remove_non_terminal_cancel_failure_is_actionable() {
    let secret = "private cancellation failure /secret/path";
    let mut host = Host::new();
    let snapshot = host.created("cancel-failure");
    host.factory.fail(Call::Cancel, secret);
    let error = error(host.remove(&snapshot));
    assert_eq!(
        error,
        "workflow could not be cancelled before removal: workflow runtime cancellation failed"
    );
    assert!(!error.contains(secret));
    assert_eq!(host.factory.count(Call::Remove), 0);
    assert!(is_snapshot(host.manager.get(&snapshot.workflow_id), &snapshot));
}

#[test]
fn lifecycle_durable_failure_rewrites_prior_snapshot() {
    let mut host = Host::new();
    let snapshot = host.created("persist-rollback");
    host.failpoints.push(Failpoint::PersistAfterWrite);
    assert_eq!(error(host.pause(&snapshot)), "workflow update could not be saved");
    assert!(is_snapshot(host.manager.get(&snapshot.workflow_id), &snapshot));
    assert!(is_snapshot(host.reload().get(&snapshot.workflow_id), &snapshot));
}

#[test]
fn restore_failure_emits_status_before_updated() {
    let mut first = Host::new();
    let snapshot = first.created("restore-order");
    let mut host = Host::over(first.disk);
    host.factory.fail(Call::Restore, "private restore failure /secret/path");
    let step = host.manager.restore_all();
    assert!(host.run(step).expect("restore all").is_empty());
    let events = host.manager.take_events();
    assert_eq!(events.len(), 2);
    assert!(matches!(
        events[0],
        WorkflowEvent::StatusChanged { status: WorkflowStatus::Failed, .. }
    ));
    assert!(matches!(
        &events[1],
        WorkflowEvent::Updated { snapshot: failed }
            if failed.workflow_id == snapshot.workflow_id
                && failed.status == WorkflowStatus::Failed
    ));
}

#[test]
fn factory_errors_and_creation_cleanup_errors_are_safe() {
    let secret = "private-id private-label private-branch /private/path";
    let mut host = Host::new();
    host.factory.fail(Call::Create, secret);
    let create_error = error(host.create("factory-safe"));
    assert_eq!(create_error, "workflow runtime creation failed");
    assert!(!create_error.contains(secret));

    let mut host = Host::new();
    let snapshot = host.created("pause-safe");
    host.factory.fail(Call::Pause, secret);
    let pause_error = error(host.pause(&snapshot));
    assert_eq!(pause_error, "workflow runtime pause failed");
    assert!(!pause_error.contains(secret));

    let mut host = Host::new();
    host.failpoints.push(Failpoint::CreateSelectionAfterWrite);
    host.factory.fail(Call::Remove, secret);
    let cleanup_error = error(host.create("cleanup-safe"));
    assert_eq!(cleanup_error, "workflow creation rollback failed");
    assert!(!cleanup_error.contains(secret));
}

#[test]
fn pause_resume_cancel_and_integrate_cover_lifecycle_contracts() {
    let mut host = Host::new();
    let first = host.created("lifecycle");
    let paused = host.pause(&first).expect("pause");
    let resumed = host.resume(&paused).expect("resume");
    assert_eq!(resumed.status, WorkflowStatus::Running);
    let cancelled = host.cancel(&resumed).expect("cancel");
    assert_eq!(cancelled.status, WorkflowStatus::Cancelled);
    assert!(is_snapshot(host.cancel(&cancelled), &cancelled));
    assert_eq!(host.factory.count(Call::Cancel), 1);

    let second = host.created("integration");
    let paused = host.pause(&second).expect("pause for integration");
    let integrated = host.integrate(&paused).expect("integrate");
    assert_eq!(integrated.status, WorkflowStatus::Conflicted);
    assert!(matches!(
        integrated.integration,
        WorkflowIntegration::Conflicted { ref conflicts } if conflicts.len() == 1
    ));
}

#[test]
fn independent_workflows_are_not_globally_serialized() {
    let mut host = Host::new();
    let first = host.created("first-independent");
    let second = host.created("second-independent");
    let first_pause = host.manager.pause(&first.workflow_id, first.generation);
    let second_paused = host.pause(&second).expect("pause second");
    assert_eq!(second_paused.status, WorkflowStatus::Paused);
    assert_eq!(host.one(first_pause).expect("pause first").status, WorkflowStatus::Paused);
}

#[test]
fn selection_failure_restores_prior_durable_and_memory_selection() {
    let mut host = Host::new();
    let first = host.created("selected-first");
    let second = host.created("selected-second");
    assert!(host.manager.selected() == Some(second.clone()));
    host.failpoints.push(Failpoint::SelectAfterWrite);
    let step = host.manager.select(Some(first.workflow_id.clone()));
    assert_eq!(error(host.run(step)), "workflow selection could not be saved");
    assert!(host.manager.selected() == Some(second.clone()));
    assert!(host.reload().selected() == Some(second));
}

#[test]
fn remove_compensation_failure_reports_only_safe_message() {
    let secret = "private restore failure /secret/path";
    let mut host = Host::new();
    let snapshot = host.cancelled("remove-rollback-failure");
    host.failpoints.push(Failpoint::RemoveAfterDelete);
    host.factory.fail(Call::Restore, secret);
    let error = error(host.remove(&snapshot));
    assert_eq!(error, "workflow removal rollback failed");
    assert!(!error.contains(secret));
    assert!(is_snapshot(host.manager.get(&snapshot.workflow_id), &snapshot));
}

#[test]
fn runtime_projection_persists_orders_events_and_rejects_stale_or_terminal_regression() {
    let mut host = Host::new();
    let snapshot = host.created("projection");
    host.manager.take_events();
    let (id, generation) = (snapshot.workflow_id.clone(), snapshot.generation);
    let running = host.project(&id, generation, WorkflowStatus::Running).expect("project running");
    assert_eq!(running.status, WorkflowStatus::Running);
    let events = host.manager.take_events();
    assert_eq!(events.len(), 2);
    assert!(matches!(
        events[0],
        WorkflowEvent::StatusChanged { status: WorkflowStatus::Running, .. }
    ));
    assert!(matches!(
        &events[1],
        WorkflowEvent::Updated { snapshot } if snapshot.status == WorkflowStatus::Running
    ));

    let completed =
        host.project(&id, generation, WorkflowStatus::Completed).expect("project completed");
    assert_eq!(completed.status, WorkflowStatus::Conflicted);
    assert!(matches!(
        &completed.integration,
        WorkflowIntegration::Conflicted { conflicts } if conflicts.as_slice() == ["private/path"]
    ));
    assert_eq!(host.factory.count(Call::Integrate), 1);
    let events = host.manager.take_events();
    assert_eq!(events.len(), 4);
    assert!(matches!(
        events[0],
        WorkflowEvent::StatusChanged { status: WorkflowStatus::Completed, .. }
    ));
    assert!(matches!(
        &events[1],
        WorkflowEvent::Updated { snapshot }
            if snapshot.status == WorkflowStatus::Completed
                && snapshot.integration == WorkflowIntegration::NotIntegrated
    ));
    assert!(matches!(
        events[2],
        WorkflowEvent::StatusChanged { status: WorkflowStatus::Conflicted, .. }
    ));
    assert!(matches!(
        &events[3],
        WorkflowEvent::Updated { snapshot } if snapshot.status == WorkflowStatus::Conflicted
    ));
    assert!(is_snapshot(host.reload().get(&id), &completed));
    assert_eq!(
        error(host.project(&id, generation + 1, WorkflowStatus::Completed)),
        "workflow generation is stale"
    );
    assert_eq!(
        error(host.project(&id, generation, WorkflowStatus::Running)),
        "workflow runtime projection is invalid"
    );
}

#[test]
fn dag_settle_auto_integrates_once_and_repeat_completed_is_noop() {
    let mut host = Host::new();
    host.factory.integrate_outcome = Some(WorkflowStatus::Completed);
    let snapshot = host.created("auto-integrate-once");
    let (id, generation) = (snapshot.workflow_id.clone(), snapshot.generation);
    host.project(&id, generation, WorkflowStatus::Running).expect("project running");
    let integrated =
        host.project(&id, generation, WorkflowStatus::Completed).expect("project completed");
    assert_eq!(integrated.status, WorkflowStatus::Completed);
    assert!(matches!(
        integrated.integration,
        WorkflowIntegration::Applied { ref result_commit }
            if result_commit == "private-result-commit"
    ));
    assert_eq!(host.factory.count(Call::Integrate), 1);
    let again =
        host.project(&id, generation, WorkflowStatus::Completed).expect("repeat completed");
    assert_eq!(again.status, WorkflowStatus::Completed);
    assert!(matches!(again.integration, WorkflowIntegration::Applied { .. }));
    assert_eq!(host.factory.count(Call::Integrate), 1);
}

#[test]
fn paused_workflow_projection_cannot_settle_or_auto_integrate() {
    let mut host = Host::new();
    let snapshot = host.created("paused-settle");
    let paused = host.pause(&snapshot).expect("pause");
    assert_eq!(paused.status, WorkflowStatus::Paused);
    let outcome = host.project(&paused.workflow_id, paused.generation, WorkflowStatus::Completed);
    assert_eq!(error(outcome), "workflow runtime projection is invalid");
    assert_eq!(host.factory.count(Call::Integrate), 0);
    let kept = host.manager.get(&paused.workflow_id).expect("paused record");
    assert_eq!(kept.status, WorkflowStatus::Paused);
}

#[test]
fn resume_settling_completed_dag_auto_integrates() {
    let mut host = Host::new();
    host.factory.integrate_outcome = Some(WorkflowStatus::Completed);
    host.factory.resume_outcome = Some(WorkflowStatus::Completed);
    let snapshot = host.created("resume-settle");
    let paused = host.pause(&snapshot).expect("pause");
    let integrated = host.resume(&paused).expect("resume settle");
    assert_eq!(integrated.status, WorkflowStatus::Completed);
    assert!(matches!(integrated.integration, WorkflowIntegration::Applied { .. }));
    assert_eq!(host.factory.count(Call::Integrate), 1);
}

#[test]
fn create_folds_latest_synchronous_projection_without_deadlock() {
    let mut host = Host::new();
    host.factory.create_projection =
        vec![update(WorkflowStatus::Planning), update(WorkflowStatus::Completed)];
    let snapshot = host.create("create-race").expect("create");
    assert_eq!(snapshot.status, WorkflowStatus::Completed);
    let durable = host.reload().get(&snapshot.workflow_id).expect("first durable projection");
    assert_eq!(durable.status, WorkflowStatus::Completed);
}

#[test]
fn projection_rejects_updates_before_record_or_exact_create_reservation() {
    let mut host = Host::new();
    let id = WorkflowId::new("private-missing-id");
    let error = error(host.project(&id, 1, WorkflowStatus::Running));
    assert_eq!(error, "workflow was not found");
    assert!(!error.contains(id.as_str()));
}

#[test]
fn debug_output_redacts_public_manager_payloads() {
    let secret =
        "private-id private-label private-branch private-agent private-job /private/path";
    let snapshot = WorkflowSnapshot {
        workflow_id: WorkflowId::new("private-id"),
        name: "private-label".to_owned(),
        objective: "/private/path".to_owned(),
        status: WorkflowStatus::Failed,
        created_at_ms: 1,
        updated_at_ms: 2,
        generation: 3,
        todo: todo(),
        worktree_label: Some("private-label".to_owned()),
        branch: Some("private-branch".to_owned()),
        supervisor_agent_id: Some("private-agent".to_owned()),
        supervisor_job_id: Some("private-job".to_owned()),
        failure: Some(WorkflowFailure { message: secret.to_owned() }),
        integration: WorkflowIntegration::Conflicted { conflicts: vec!["/private/path".to_owned()] },
    };
    let values = [
        WorkflowCreateRequest { name: secret.to_owned(), objective: secret.to_owned() }.debug_text(),
        WorkflowRuntimeRequest {
            workflow_id: snapshot.workflow_id.clone(),
            name: secret.to_owned(),
            objective: secret.to_owned(),
            generation: 3,
        }
        .debug_text(),
        identity().debug_text(),
        WorkflowRuntimeUpdate {
            status: WorkflowStatus::Failed,
            todo: todo(),
            supervisor_agent_id: Some(secret.to_owned()),
            supervisor_job_id: Some(secret.to_owned()),
            failure: snapshot.failure.clone(),
            integration: snapshot.integration.clone(),
        }
        .debug_text(),
        WorkflowEvent::Updated { snapshot: snapshot.clone() }.debug_text(),
        WorkflowStoreDiagnostic {
            workflow_id: Some(snapshot.workflow_id.clone()),
            message: secret.to_owned(),
        }
        .debug_text(),
        snapshot.failure.clone().expect("failure").debug_text(),
        snapshot.integration.clone().debug_text(),
    ];
    for debug in values {
        for private in secret.split_whitespace() {
            assert!(!debug.contains(private), "debug leaked {private}: {debug}");
        }
    }
}

#[test]
fn blank_names_and_objectives_are_refused() {
    let mut host = Host::new();
    let blank = WorkflowCreateRequest { name: " \t".to_owned(), objective: "x".to_owned() };
    let step = host.manager.create(blank);
    assert_eq!(error(host.run(step)), "workflow name must not be empty");
    let blank = WorkflowCreateRequest { name: "x".to_owned(), objective: "\n ".to_owned() };
    let step = host.manager.create(blank);
    assert_eq!(error(host.run(step)), "workflow objective must not be empty");
    assert!(host.factory.calls.is_empty());
}

#[test]
fn fresh_ids_are_time_ordered_uuids() {
    let mut host = Host::new();
    let first = host.created("one");
    let second = host.created("two");
    for s in [&first, &second] {
        let id = s.workflow_id.as_str();
        assert_eq!(id.len(), 36);
        assert_eq!(id.as_bytes()[14], b'7');
        for (at, c) in id.char_indices() {
            if [8, 13, 18, 23].contains(&at) {
                assert_eq!(c, '-');
            } else {
                assert!(c.is_ascii_digit() || ('a'..='f').contains(&c));
            }
        }
    }
    assert!(first.workflow_id != second.workflow_id);
}

#[test]
fn names_find_their_one_workflow() {
    let mut host = Host::new();
    let first = host.created("named");
    assert!(is_snapshot(host.manager.get_by_name("named"), &first));
    assert_eq!(error(host.manager.get_by_name("other")), "workflow was not found");

    let mut twin = first.clone();
    twin.workflow_id = WorkflowId::new("twin");
    let both = WorkflowManager::open(vec![first, twin], None, Vec::new());
    assert_eq!(error(both.get_by_name("named")), "workflow name is ambiguous");
}

#[test]
fn the_oldest_workflow_is_listed_first() {
    let mut host = Host::new();
    let sample = host.created("sample");
    let with = |id: &str, created_at_ms: u64| {
        let mut s = sample.clone();
        s.workflow_id = WorkflowId::new(id);
        s.created_at_ms = created_at_ms;
        s
    };
    let manager =
        WorkflowManager::open(vec![with("a", 9), with("c", 3), with("b", 3)], None, Vec::new());
    let ids: Vec<String> =
        manager.list().iter().map(|s| s.workflow_id.as_str().to_owned()).collect();
    assert_eq!(ids, ["b", "c", "a"]);
}

#[test]
fn a_selection_that_left_is_forgotten() {
    let manager = WorkflowManager::open(Vec::new(), Some(WorkflowId::new("gone")), Vec::new());
    assert!(manager.selected().is_none());
}

#[test]
fn every_transition_has_its_statuses() {
    let all = [
        WorkflowStatus::Queued,
        WorkflowStatus::Planning,
        WorkflowStatus::Running,
        WorkflowStatus::Paused,
        WorkflowStatus::Integrating,
        WorkflowStatus::Completed,
        WorkflowStatus::Failed,
        WorkflowStatus::Cancelled,
        WorkflowStatus::Conflicted,
    ];
    let allowed = |action: WorkflowAction| {
        all.iter().filter(|s| ensure_allowed(**s, action).is_ok()).copied().collect::<Vec<_>>()
    };
    assert_eq!(
        allowed(WorkflowAction::Pause),
        [WorkflowStatus::Queued, WorkflowStatus::Planning, WorkflowStatus::Running]
    );
    assert_eq!(
        allowed(WorkflowAction::Resume),
        [WorkflowStatus::Planning, WorkflowStatus::Running, WorkflowStatus::Paused]
    );
    assert_eq!(
        allowed(WorkflowAction::Integrate),
        [WorkflowStatus::Paused, WorkflowStatus::Completed, WorkflowStatus::Conflicted]
    );
    for s in all {
        assert_eq!(ensure_allowed(s, WorkflowAction::Cancel).is_ok(), !s.is_terminal());
    }
    assert_eq!(
        error(ensure_allowed(WorkflowStatus::Failed, WorkflowAction::Pause)),
        "workflow lifecycle transition is not allowed"
    );
    assert_eq!(
        error(validate_status(WorkflowAction::Pause, WorkflowStatus::Running)),
        "workflow runtime returned an invalid lifecycle status"
    );
    assert!(validate_status(WorkflowAction::Integrate, WorkflowStatus::Failed).is_ok());
    assert!(validate_runtime_projection(WorkflowStatus::Queued, WorkflowStatus::Completed).is_ok());
    assert_eq!(
        error(validate_runtime_projection(WorkflowStatus::Running, WorkflowStatus::Planning)),
        "workflow runtime projection is invalid"
    );
}

#[test]
fn diagnostics_tell_the_kind_alone() {
    let d = safe_store_diagnostic(StoreDiagnostic {
        record_id: Some(WorkflowId::new("wf")),
        kind: StoreDiagnosticKind::CorruptRecord,
        message: "/private/path".to_owned(),
    });
    assert_eq!(d.message, "ignored a corrupt workflow record");
    assert!(d.workflow_id == Some(WorkflowId::new("wf")));
}
