use vstd::prelude::*;
use crate::errors::{CreateErrorType, DeleteErrorType};
use crate::executors::{exists_message, folder_failure_kind, missing_message, removal_failure_kind};
use crate::layout::folder_path;
use crate::fs::IoKind;
use crate::provisioner::{
    deletion_order, removal_steps, removals_well_reported, step_error_shape, Removal,
};
use crate::saga::reversed;
use crate::steps::{creation_order, step_index, Step, STEP_COUNT};

verus! {

/// The artifacts of one service that are on disk, each named by the step
/// that creates it; `Step::Folder` stands for the service directory.
pub open spec fn after_creation(present: Set<Step>, s: Step) -> Set<Step> {
    present.insert(s)
}

/// Removing the directory removes everything in it; removing a file removes
/// that file.
pub open spec fn after_removal(present: Set<Step>, s: Step) -> Set<Step> {
    if s == Step::Folder {
        Set::empty()
    } else {
        present.remove(s)
    }
}

/// The artifacts present after the given creation steps all succeeded.
pub open spec fn create_all(present: Set<Step>, steps: Seq<Step>) -> Set<Step>
    decreases steps.len(),
{
    if steps.len() == 0 {
        present
    } else {
        create_all(after_creation(present, steps[0]), steps.drop_first())
    }
}

/// The artifacts present after a list of removals ran: those that succeeded
/// took their artifact away, those that failed changed nothing.
pub open spec fn apply_removals(present: Set<Step>, removals: Seq<Removal>) -> Set<Step>
    decreases removals.len(),
{
    if removals.len() == 0 {
        present
    } else {
        let next = if removals[0].result is Ok {
            after_removal(present, removals[0].step)
        } else {
            present
        };
        apply_removals(next, removals.drop_first())
    }
}

proof fn lemma_folder_removal_last_clears(present: Set<Step>, removals: Seq<Removal>)
    requires
        removals.len() > 0,
        removals.last().step == Step::Folder,
        removals.last().result is Ok,
    ensures
        apply_removals(present, removals) == Set::<Step>::empty(),
    decreases removals.len(),
{
    if removals.len() == 1 {
        let next = after_removal(present, removals[0].step);
        assert(removals.drop_first().len() == 0);
        assert(next == Set::<Step>::empty());
        assert(apply_removals(next, removals.drop_first()) == next);
    } else {
        let next = if removals[0].result is Ok {
            after_removal(present, removals[0].step)
        } else {
            present
        };
        let rest = removals.drop_first();
        assert(rest.last() == removals.last());
        lemma_folder_removal_last_clears(next, rest);
        assert(apply_removals(present, removals) == apply_removals(next, rest));
    }
}

/// In the model of a service's artifacts given by `after_creation` and
/// `after_removal`, a failed creation leaves nothing behind: start from no
/// artifact (the service directory absent), let the steps before the failed
/// one succeed, and run the compensations in the order that `create`
/// reports; when the directory's own removal succeeds, no artifact remains,
/// the directory included, whichever compensations of single files failed.
pub proof fn lemma_failed_create_leaves_nothing(failed: Step, compensations: Seq<Removal>)
    requires
        removal_steps(compensations) == reversed(creation_order().take(step_index(failed) as int)),
        forall|i: int|
            0 <= i < compensations.len() && (#[trigger] compensations[i]).step == Step::Folder
                ==> compensations[i].result is Ok,
    ensures
        apply_removals(
            create_all(Set::empty(), creation_order().take(step_index(failed) as int)),
            compensations,
        ) == Set::<Step>::empty(),
{
    let k = step_index(failed) as int;
    let done = creation_order().take(k);
    assert(compensations.len() == removal_steps(compensations).len());
    if k == 0 {
        assert(compensations.len() == 0);
        assert(done.len() == 0);
    } else {
        let last = compensations.len() - 1;
        assert(removal_steps(compensations)[last] == compensations[last].step);
        assert(reversed(done)[last] == done[0]);
        assert(done[0] == Step::Folder);
        lemma_folder_removal_last_clears(create_all(Set::empty(), done), compensations);
    }
}

/// Compensation order is the exact reverse of completion order: the first
/// compensation undoes the last completed step, and so on back to the first.
pub proof fn lemma_compensations_reverse_completion(completed: Seq<Step>, compensations: Seq<Removal>)
    requires
        removal_steps(compensations) == reversed(completed),
    ensures
        compensations.len() == completed.len(),
        forall|j: int|
            0 <= j < completed.len() ==> (#[trigger] compensations[j]).step == completed[completed.len()
                - 1 - j],
{
    assert(compensations.len() == removal_steps(compensations).len());
    assert(reversed(completed).len() == completed.len());
    assert forall|j: int| 0 <= j < completed.len() implies (#[trigger] compensations[j]).step
        == completed[completed.len() - 1 - j] by {
        assert(removal_steps(compensations)[j] == compensations[j].step);
    }
}

/// A directory that already exists is classified as `FolderExists`. A
/// creation that fails on its first step, the directory, with that kind
/// reports "<root>/<name> already exists" and no compensation: no step of it
/// succeeded, so there is nothing to undo.
pub proof fn lemma_existing_folder_rolls_back_nothing(
    compensations: Seq<Removal>,
    root: Seq<char>,
    name: Seq<char>,
    message: Seq<char>,
)
    requires
        removal_steps(compensations) == reversed(
            creation_order().take(step_index(Step::Folder) as int),
        ),
        step_error_shape(Step::Folder, root, name, CreateErrorType::FolderExists, message),
    ensures
        folder_failure_kind(IoKind::AlreadyExists) == CreateErrorType::FolderExists,
        compensations.len() == 0,
        message == exists_message(folder_path(root, name)),
{
    assert(compensations.len() == removal_steps(compensations).len());
}

/// The removals of a deletion pass, as `delete` reports them, are four and
/// end with the directory's; a directory that the file manager finds absent
/// (`NotFound`) is classified as `FolderDoesNotExist`, and a removal of the
/// directory reported that way says "<root>/<name> does not exist".
pub proof fn lemma_missing_folder_reported(
    removals: Seq<Removal>,
    root: Seq<char>,
    name: Seq<char>,
)
    requires
        removal_steps(removals) == deletion_order(),
        removals_well_reported(removals, root, name),
    ensures
        removal_failure_kind(Step::Folder, IoKind::NotFound) == DeleteErrorType::FolderDoesNotExist,
        removals.len() == STEP_COUNT,
        removals[STEP_COUNT - 1].step == Step::Folder,
        removals[STEP_COUNT - 1].result is Err && removals[STEP_COUNT - 1].result->Err_0.kind
            == DeleteErrorType::FolderDoesNotExist ==> removals[STEP_COUNT
            - 1].result->Err_0.message@ == missing_message(folder_path(root, name)),
{
    assert(removals.len() == removal_steps(removals).len());
    assert(removal_steps(removals)[STEP_COUNT - 1] == removals[STEP_COUNT - 1].step);
}

} // verus!
