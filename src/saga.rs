use vstd::prelude::*;
use crate::errors::{CreateErrorType, CreateExecutorError};
use crate::steps::{creation_order, step_index, Step, STEP_COUNT};

verus! {

/// A deferred compensating action: undo `step` for `service_name`.
#[derive(Debug)]
pub struct UndoEntry {
    pub step: Step,
    pub service_name: String,
}

/// The steps that a list of undo entries refers to, in list order.
pub open spec fn undo_steps(entries: Seq<UndoEntry>) -> Seq<Step> {
    entries.map_values(|e: UndoEntry| e.step)
}

/// `s` read back to front.
pub open spec fn reversed<A>(s: Seq<A>) -> Seq<A> {
    Seq::new(s.len(), |i: int| s[s.len() - 1 - i])
}

/// What a creation in progress has done so far.
pub struct SagaView {
    pub service_name: Seq<char>,
    /// The steps that succeeded, in the order they ran.
    pub completed: Seq<Step>,
    /// The kind and message of the step that failed, once one has.
    pub failure: Option<(CreateErrorType, Seq<char>)>,
}

/// The step to run next: the one after the completed ones, unless a step has
/// failed or all have completed.
pub open spec fn next_step_of(v: SagaView) -> Option<Step> {
    if v.failure is None && v.completed.len() < STEP_COUNT {
        Some(creation_order()[v.completed.len() as int])
    } else {
        None
    }
}

/// The forward half of service creation: runs the steps in their fixed
/// order, records an undo entry for each step that succeeds, and stops at
/// the first failure.
pub struct CreateSaga {
    service_name: String,
    undo: Vec<UndoEntry>,
    failure: Option<CreateExecutorError>,
}

impl View for CreateSaga {
    type V = SagaView;

    closed spec fn view(&self) -> SagaView {
        SagaView {
            service_name: self.service_name@,
            completed: undo_steps(self.undo@),
            failure: match self.failure {
                Some(e) => Some((e.kind, e.message@)),
                None => None,
            },
        }
    }
}

impl CreateSaga {
    /// The undo list is a prefix of the creation order, bound to this
    /// service, and a failure leaves at least one step not completed.
    pub closed spec fn wf(&self) -> bool {
        &&& self.undo.len() <= STEP_COUNT
        &&& forall|i: int|
            0 <= i < self.undo.len() ==> #[trigger] self.undo[i].step == creation_order()[i]
                && self.undo[i].service_name@ == self.service_name@
        &&& self.failure is Some ==> self.undo.len() < STEP_COUNT
    }

    pub fn new(service_name: String) -> (r: CreateSaga)
        ensures
            r.wf(),
            r@.service_name == service_name@,
            r@.completed == Seq::<Step>::empty(),
            r@.failure is None,
    {
        let r = CreateSaga { service_name, undo: Vec::new(), failure: None };
        assert(undo_steps(r.undo@) =~= Seq::<Step>::empty());
        r
    }

    proof fn lemma_completed_is_prefix(&self)
        requires
            self.wf(),
        ensures
            self@.completed == creation_order().take(self.undo.len() as int),
            self@.completed.len() <= STEP_COUNT,
            self@.failure is Some ==> self@.completed.len() < STEP_COUNT,
    {
        assert(self@.completed =~= creation_order().take(self.undo.len() as int));
    }

    /// The step to run next, if any.
    pub fn next_step(&self) -> (r: Option<Step>)
        requires
            self.wf(),
        ensures
            r == next_step_of(self@),
            self@.completed == creation_order().take(self@.completed.len() as int),
            self@.completed.len() <= STEP_COUNT,
            self@.failure is Some ==> self@.completed.len() < STEP_COUNT,
    {
        proof {
            self.lemma_completed_is_prefix();
        }
        if self.failure.is_none() && self.undo.len() < STEP_COUNT {
            Some(Step::at(self.undo.len()))
        } else {
            None
        }
    }

    /// Records the result of the step that `next_step` named: on success an
    /// undo entry for it is appended, on failure the saga stops.
    pub fn record_step(&mut self, result: Result<(), CreateExecutorError>)
        requires
            old(self).wf(),
            next_step_of(old(self)@) is Some,
        ensures
            final(self).wf(),
            final(self)@.service_name == old(self)@.service_name,
            result is Ok ==> final(self)@.completed == old(self)@.completed.push(
                next_step_of(old(self)@)->Some_0,
            ) && final(self)@.failure is None,
            result is Err ==> final(self)@.completed == old(self)@.completed
                && final(self)@.failure == Some(
                (result->Err_0.kind, result->Err_0.message@),
            ),
    {
        proof {
            self.lemma_completed_is_prefix();
        }
        match result {
            Ok(()) => {
                let step = Step::at(self.undo.len());
                let entry = UndoEntry { step, service_name: self.service_name.clone() };
                self.undo.push(entry);
                assert(undo_steps(self.undo@) =~= undo_steps(old(self).undo@).push(step));
            },
            Err(e) => {
                self.failure = Some(e);
            },
        }
    }

    pub fn service_name(&self) -> (r: &String)
        ensures
            r@ == self@.service_name,
    {
        &self.service_name
    }

    /// Whether every step has completed.
    pub fn is_committed(&self) -> (r: bool)
        requires
            self.wf(),
        ensures
            r <==> self@.failure is None && self@.completed.len() == STEP_COUNT,
    {
        self.failure.is_none() && self.undo.len() == STEP_COUNT
    }

    /// The steps completed so far, in order.
    pub fn completed_steps(&self) -> (r: Vec<Step>)
        ensures
            r@ == self@.completed,
    {
        let mut r: Vec<Step> = Vec::new();
        let mut i: usize = 0;
        while i < self.undo.len()
            invariant
                i <= self.undo.len(),
                r@ == undo_steps(self.undo@).take(i as int),
            decreases self.undo.len() - i,
        {
            r.push(self.undo[i].step);
            i += 1;
            assert(r@ =~= undo_steps(self.undo@).take(i as int));
        }
        assert(r@ =~= undo_steps(self.undo@));
        r
    }

    /// Ends a failed saga: hands out the undo list, the step that failed and
    /// its error.
    pub fn into_failure(self) -> (r: (Vec<UndoEntry>, Step, CreateExecutorError))
        requires
            self.wf(),
            self@.failure is Some,
        ensures
            undo_steps(r.0@) == self@.completed,
            forall|i: int| 0 <= i < r.0.len() ==> (#[trigger] r.0[i]).service_name@ == self@.service_name,
            r.1 == creation_order()[self@.completed.len() as int],
            step_index(r.1) == self@.completed.len(),
            self@.failure == Some((r.2.kind, r.2.message@)),
    {
        proof {
            self.lemma_completed_is_prefix();
        }
        let step = Step::at(self.undo.len());
        assert forall|i: int| 0 <= i < self.undo.len() implies (#[trigger] self.undo[i]).service_name@
            == self@.service_name by {
            assert(self.undo[i].step == creation_order()[i]);
        }
        let CreateSaga { service_name: _, undo, failure } = self;
        (undo, step, failure.unwrap())
    }
}

} // verus!
