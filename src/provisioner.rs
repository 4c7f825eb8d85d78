use vstd::prelude::*;
use crate::errors::{
    create_kind_text, error_text, CreateErrorType, CreateExecutorError, DeleteExecutorError,
};
use crate::executors::{
    create_kind_for, exists_kind, exists_message, removal_error_shape, step_path, CreateExecutor,
    DeleteExecutor,
};
use crate::saga::{next_step_of, reversed, undo_steps, CreateSaga, UndoEntry};
use crate::steps::{creation_order, step_index, step_name, Step, STEP_COUNT};

verus! {

/// One removal of an artifact, as part of a rollback or a deletion.
#[derive(Debug)]
pub struct Removal {
    pub step: Step,
    pub result: Result<(), DeleteExecutorError>,
}

/// The artifacts that a list of removals touched, in the order they ran.
pub open spec fn removal_steps(v: Seq<Removal>) -> Seq<Step> {
    v.map_values(|r: Removal| r.step)
}

/// Every failed removal in the list reports one of its artifact's kinds,
/// with a message naming the artifact's path for service `name` under `root`.
pub open spec fn removals_well_reported(v: Seq<Removal>, root: Seq<char>, name: Seq<char>) -> bool {
    forall|i: int|
        0 <= i < v.len() && (#[trigger] v[i]).result is Err ==> removal_error_shape(
            v[i].step,
            step_path(root, v[i].step, name),
            v[i].result->Err_0.kind,
            v[i].result->Err_0.message@,
        )
}

/// The failure of a creation step for service `name` under `root`: one of
/// the step's kinds, and "<path> already exists" when it is the step's
/// exists kind.
pub open spec fn step_error_shape(
    step: Step,
    root: Seq<char>,
    name: Seq<char>,
    k: CreateErrorType,
    message: Seq<char>,
) -> bool {
    &&& create_kind_for(step, k)
    &&& k == exists_kind(step) ==> message == exists_message(step_path(root, step, name))
}

/// The order in which `delete` removes a service: its files, then its
/// directory.
pub open spec fn deletion_order() -> Seq<Step> {
    seq![Step::ComposeFile, Step::EnvFile, Step::SystemdUnit, Step::Folder]
}

/// A failed creation, after its rollback: the step that failed, the service,
/// the step's own error and the compensations that ran, in order.
#[derive(Debug)]
pub struct ProvisionError {
    pub step: Step,
    pub service_name: String,
    pub cause: CreateExecutorError,
    pub compensations: Vec<Removal>,
}

/// "Step '<step>' failed for service '<name>': <cause>".
pub open spec fn provision_error_text(step: Step, name: Seq<char>, cause: Seq<char>) -> Seq<char> {
    "Step '"@ + step_name(step) + "' failed for service '"@ + name + "': "@ + cause
}

impl ProvisionError {
    /// The caller-facing message, naming the step and the service.
    pub fn message(&self) -> (r: String)
        ensures
            r@ == provision_error_text(
                self.step,
                self.service_name@,
                error_text(create_kind_text(self.cause.kind), self.cause.message@),
            ),
    {
        let mut s = String::from_str("Step '");
        let step = self.step.name();
        s.append(step.as_str());
        s.append("' failed for service '");
        s.append(self.service_name.as_str());
        s.append("': ");
        let cause = self.cause.describe();
        s.append(cause.as_str());
        s
    }
}

/// Whether every removal in the list succeeded.
pub open spec fn all_removed(v: Seq<Removal>) -> bool {
    forall|i: int| 0 <= i < v.len() ==> (#[trigger] v[i]).result is Ok
}

/// The outcome of a deletion pass: every removal with its result, as a
/// success when all of them succeeded and as a failure otherwise.
pub fn deletion_outcome(removals: Vec<Removal>) -> (r: Result<Vec<Removal>, Vec<Removal>>)
    ensures
        r is Ok <==> all_removed(removals@),
        r is Ok ==> r->Ok_0@ == removals@,
        r is Err ==> r->Err_0@ == removals@,
{
    let mut i: usize = 0;
    while i < removals.len()
        invariant
            i <= removals.len(),
            forall|j: int| 0 <= j < i ==> (#[trigger] removals@[j]).result is Ok,
        decreases removals.len() - i,
    {
        if removals[i].result.is_err() {
            return Err(removals);
        }
        i += 1;
    }
    Ok(removals)
}

/// Serves create, delete, restart and pull requests for services, on top of
/// a creation and a deletion executor.
pub struct ProvisionerImpl<C, D> {
    pub create_executor: C,
    pub delete_executor: D,
}

impl<C: CreateExecutor, D: DeleteExecutor> ProvisionerImpl<C, D> {
    pub fn new(create_executor: C, delete_executor: D) -> (r: Self)
        ensures
            r.create_executor == create_executor,
            r.delete_executor == delete_executor,
    {
        ProvisionerImpl { create_executor, delete_executor }
    }

    fn run_step(&self, step: Step, service_name: String) -> (r: Result<(), CreateExecutorError>)
        ensures
            r is Err ==> step_error_shape(
                step,
                self.create_executor.root(),
                service_name@,
                r->Err_0.kind,
                r->Err_0.message@,
            ),
    {
        match step {
            Step::Folder => self.create_executor.create_folder(service_name),
            Step::ComposeFile => self.create_executor.create_compose_file(service_name),
            Step::EnvFile => self.create_executor.create_env_file(service_name),
            Step::SystemdUnit => self.create_executor.create_systemd_unit(service_name),
        }
    }

    fn remove(&self, step: Step, service_name: String) -> (r: Removal)
        ensures
            r.step == step,
            r.result is Err ==> removal_error_shape(
                step,
                step_path(self.delete_executor.root(), step, service_name@),
                r.result->Err_0.kind,
                r.result->Err_0.message@,
            ),
    {
        let result = match step {
            Step::Folder => self.delete_executor.delete_folder(service_name),
            Step::ComposeFile => self.delete_executor.delete_compose_file(service_name),
            Step::EnvFile => self.delete_executor.delete_env_file(service_name),
            Step::SystemdUnit => self.delete_executor.delete_systemd_unit(service_name),
        };
        Removal { step, result }
    }

    /// Runs the compensations of an undo list, last entry first. A failed
    /// compensation does not stop the ones after it.
    pub fn unwind(&self, queue: Vec<UndoEntry>) -> (r: Vec<Removal>)
        ensures
            removal_steps(r@) == reversed(undo_steps(queue@)),
            forall|i: int|
                0 <= i < r.len() && (#[trigger] r[i]).result is Err ==> removal_error_shape(
                    r[i].step,
                    step_path(
                        self.delete_executor.root(),
                        r[i].step,
                        queue[queue.len() - 1 - i].service_name@,
                    ),
                    r[i].result->Err_0.kind,
                    r[i].result->Err_0.message@,
                ),
    {
        let mut r: Vec<Removal> = Vec::new();
        let mut i: usize = queue.len();
        while i > 0
            invariant
                i <= queue.len(),
                removal_steps(r@) == reversed(undo_steps(queue@)).take(queue.len() - i),
                r.len() == queue.len() - i,
                forall|j: int|
                    0 <= j < r.len() && (#[trigger] r[j]).result is Err ==> removal_error_shape(
                        r[j].step,
                        step_path(
                            self.delete_executor.root(),
                            r[j].step,
                            queue[queue.len() - 1 - j].service_name@,
                        ),
                        r[j].result->Err_0.kind,
                        r[j].result->Err_0.message@,
                    ),
            decreases i,
        {
            i -= 1;
            let entry = &queue[i];
            assert(undo_steps(queue@)[i as int] == entry.step);
            let removal = self.remove(entry.step, entry.service_name.clone());
            let ghost prev = r@;
            let ghost step = removal.step;
            r.push(removal);
            assert(removal_steps(r@) =~= removal_steps(prev).push(step));
            assert(removal_steps(r@) =~= reversed(undo_steps(queue@)).take(queue.len() - i));
        }
        assert(removal_steps(r@) =~= reversed(undo_steps(queue@)));
        r
    }

    /// Creates the service: its directory, compose file, env file and unit,
    /// in that order. When a step fails, the steps that succeeded are undone
    /// in reverse order and the failure is returned.
    ///
    /// No lock is taken on the service name: two creations of one name that
    /// run at the same time are kept apart only by the directory step, which
    /// fails with `FolderExists` for the later one.
    pub fn create(&self, service_name: String) -> (r: Result<(), ProvisionError>)
        ensures
            r is Err ==> r->Err_0.service_name@ == service_name@,
            r is Err ==> r->Err_0.compensations@.len() == step_index(r->Err_0.step),
            r is Err ==> step_error_shape(
                r->Err_0.step,
                self.create_executor.root(),
                service_name@,
                r->Err_0.cause.kind,
                r->Err_0.cause.message@,
            ),
            r is Err ==> removals_well_reported(
                r->Err_0.compensations@,
                self.delete_executor.root(),
                service_name@,
            ),
            r is Err ==> removal_steps(r->Err_0.compensations@) == reversed(
                creation_order().take(step_index(r->Err_0.step) as int),
            ),
    {
        let ghost name = service_name@;
        let mut saga = CreateSaga::new(service_name);
        loop
            invariant
                saga.wf(),
                saga@.service_name == name,
                saga@.completed.len() <= STEP_COUNT,
                saga@.failure is Some ==> saga@.completed.len() < STEP_COUNT && step_error_shape(
                    creation_order()[saga@.completed.len() as int],
                    self.create_executor.root(),
                    name,
                    saga@.failure->Some_0.0,
                    saga@.failure->Some_0.1,
                ),
            ensures
                saga.wf(),
                saga@.service_name == name,
                saga@.completed.len() <= STEP_COUNT,
                next_step_of(saga@) is None,
                saga@.completed == creation_order().take(saga@.completed.len() as int),
                saga@.failure is Some ==> saga@.completed.len() < STEP_COUNT && step_error_shape(
                    creation_order()[saga@.completed.len() as int],
                    self.create_executor.root(),
                    name,
                    saga@.failure->Some_0.0,
                    saga@.failure->Some_0.1,
                ),
            decreases (if saga@.failure is None {
                1int
            } else {
                0int
            }) + STEP_COUNT - saga@.completed.len(),
        {
            match saga.next_step() {
                Some(step) => {
                    let res = self.run_step(step, saga.service_name().clone());
                    saga.record_step(res);
                },
                None => break,
            }
        }
        if saga.is_committed() {
            return Ok(());
        }
        let service_name = saga.service_name().clone();
        let (undo, step, cause) = saga.into_failure();
        let compensations = self.unwind(undo);
        assert(compensations@.len() == removal_steps(compensations@).len());
        Err(ProvisionError { step, service_name, cause, compensations })
    }

    /// Removes every artifact of the service, best effort: each removal is
    /// tried whatever became of the ones before it. Both outcomes carry the
    /// four removals with their results.
    pub fn delete(&self, service_name: String) -> (r: Result<Vec<Removal>, Vec<Removal>>)
        ensures
            r is Ok ==> removal_steps(r->Ok_0@) == deletion_order(),
            r is Ok ==> all_removed(r->Ok_0@),
            r is Err ==> removal_steps(r->Err_0@) == deletion_order(),
            r is Err ==> !all_removed(r->Err_0@),
            r is Err ==> removals_well_reported(r->Err_0@, self.delete_executor.root(), service_name@),
    {
        let mut removals: Vec<Removal> = Vec::new();
        removals.push(self.remove(Step::ComposeFile, service_name.clone()));
        removals.push(self.remove(Step::EnvFile, service_name.clone()));
        removals.push(self.remove(Step::SystemdUnit, service_name.clone()));
        removals.push(self.remove(Step::Folder, service_name));
        assert(removal_steps(removals@) =~= deletion_order());
        deletion_outcome(removals)
    }

    /// Acknowledges a restart request; there is nothing to do for it.
    pub fn restart(&self, service_name: String) -> (r: Result<(), ProvisionError>)
        ensures
            r is Ok,
    {
        Ok(())
    }

    /// Acknowledges a pull request; there is nothing to do for it.
    pub fn pull(&self, service_name: String) -> (r: Result<(), ProvisionError>)
        ensures
            r is Ok,
    {
        Ok(())
    }
}

} // verus!
