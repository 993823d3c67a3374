use vstd::prelude::*;
use crate::error::ProvisionError;
use crate::manifest::Manifests;

verus! {

/// Where an allocation stands.
#[derive(Clone, Copy, Debug, PartialEq, Eq, Structural)]
pub enum AddPhase {
    /// The claim is being created.
    CreatingClaim,
    /// The pod is being created.
    CreatingPod,
    /// Waiting, with a deadline, for the pod to run.
    Waiting,
    /// Reading the pod back for its address.
    Resolving,
    /// Rolling back: the pod is being deleted.
    RemovingPod,
    /// Rolling back: the claim is being deleted.
    RemovingClaim,
    /// Finished, one way or the other.
    Done,
}

/// What came of the last action.
#[derive(Debug)]
pub enum Event {
    /// The create, wait or delete call succeeded.
    Succeeded,
    /// The call failed.
    Failed { cause: String },
    /// The pod did not run before the deadline.
    TimedOut,
    /// The pod was read back; its network address, if it has one.
    Fetched { address: Option<String> },
}

/// Why an allocation failed, and what went wrong while rolling it back.
#[derive(Debug)]
pub struct AddFailure {
    pub cause: ProvisionError,
    pub rollback_errors: Vec<String>,
}

/// What to do next.
#[derive(Debug)]
pub enum Action {
    /// Create the claim of the manifests.
    CreateClaim,
    /// Create the pod of the manifests.
    CreatePod,
    /// Wait until the pod runs, for `timeout` seconds at most.
    AwaitRunning { timeout: u64 },
    /// Read the pod back.
    FetchPod,
    /// Delete the pod `name`.
    DeletePod { name: String },
    /// Delete the claim `name`.
    DeleteClaim { name: String },
    /// Stop: the pod's address, or why it could not be had.
    Finish { outcome: Result<String, AddFailure> },
}

pub enum ActionView {
    CreateClaim,
    CreatePod,
    AwaitRunning { timeout: u64 },
    FetchPod,
    DeletePod { name: String },
    DeleteClaim { name: String },
    Finish { outcome: Result<String, (ProvisionError, Seq<String>)> },
}

impl View for Action {
    type V = ActionView;

    open spec fn view(&self) -> ActionView {
        match self {
            Action::CreateClaim => ActionView::CreateClaim,
            Action::CreatePod => ActionView::CreatePod,
            Action::AwaitRunning { timeout } => ActionView::AwaitRunning { timeout: *timeout },
            Action::FetchPod => ActionView::FetchPod,
            Action::DeletePod { name } => ActionView::DeletePod { name: *name },
            Action::DeleteClaim { name } => ActionView::DeleteClaim { name: *name },
            Action::Finish { outcome } => ActionView::Finish {
                outcome: match outcome {
                    Ok(a) => Ok(*a),
                    Err(f) => Err((f.cause, f.rollback_errors@)),
                },
            },
        }
    }
}

/// One allocation: create the claim (if any), then the pod; wait for it to run;
/// read its address. Once something was created, every failure deletes it again
/// (the pod, then the claim) before the first cause is reported.
pub struct AddFlow {
    pub pod_name: String,
    pub claim_name: Option<String>,
    pub timeout: u64,
    pub phase: AddPhase,
    pub cause: Option<ProvisionError>,
    pub rollback_errors: Vec<String>,
}

pub struct FlowView {
    pub pod_name: String,
    pub claim_name: Option<String>,
    pub timeout: u64,
    pub phase: AddPhase,
    pub cause: Option<ProvisionError>,
    pub rollback_errors: Seq<String>,
}

impl View for AddFlow {
    type V = FlowView;

    open spec fn view(&self) -> FlowView {
        FlowView {
            pod_name: self.pod_name,
            claim_name: self.claim_name,
            timeout: self.timeout,
            phase: self.phase,
            cause: self.cause,
            rollback_errors: self.rollback_errors@,
        }
    }
}

/// The events that can answer the action of phase `phase`.
pub open spec fn accepts(phase: AddPhase, e: Event) -> bool {
    match phase {
        AddPhase::Waiting => e is Succeeded || e is Failed || e is TimedOut,
        AddPhase::Resolving => e is Fetched || e is Failed,
        AddPhase::Done => false,
        _ => e is Succeeded || e is Failed,
    }
}

/// The rollback state is consistent with the phase.
pub open spec fn flow_wf(f: FlowView) -> bool {
    &&& (f.phase is CreatingClaim ==> f.claim_name is Some)
    &&& (f.phase is RemovingClaim ==> f.claim_name is Some)
    &&& (f.phase is RemovingPod || f.phase is RemovingClaim ==> f.cause is Some)
}

/// The first state and action of an allocation.
pub open spec fn start_of(pod_name: String, claim_name: Option<String>, timeout: u64) -> (
    FlowView,
    ActionView,
) {
    let f = FlowView {
        pod_name,
        claim_name,
        timeout,
        phase: if claim_name is Some {
            AddPhase::CreatingClaim
        } else {
            AddPhase::CreatingPod
        },
        cause: None,
        rollback_errors: seq![],
    };
    (f, if claim_name is Some {
        ActionView::CreateClaim
    } else {
        ActionView::CreatePod
    })
}

/// Stop with `cause`, after whatever rollback has run.
pub open spec fn fail_with(f: FlowView, cause: ProvisionError) -> (FlowView, ActionView) {
    (
        FlowView { phase: AddPhase::Done, cause: Some(cause), ..f },
        ActionView::Finish { outcome: Err((cause, f.rollback_errors)) },
    )
}

/// Roll back the claim alone (the pod was never created), or stop if there is none.
pub open spec fn remove_claim(f: FlowView, cause: ProvisionError) -> (FlowView, ActionView) {
    match f.claim_name {
        Some(c) => (
            FlowView { phase: AddPhase::RemovingClaim, cause: Some(cause), ..f },
            ActionView::DeleteClaim { name: c },
        ),
        None => fail_with(f, cause),
    }
}

/// Roll back from the pod on.
pub open spec fn remove_pod(f: FlowView, cause: ProvisionError) -> (FlowView, ActionView) {
    (
        FlowView { phase: AddPhase::RemovingPod, cause: Some(cause), ..f },
        ActionView::DeletePod { name: f.pod_name },
    )
}

/// A failed delete during rollback is recorded, and rollback goes on.
pub open spec fn record(f: FlowView, e: Event) -> FlowView {
    match e {
        Event::Failed { cause } => FlowView { rollback_errors: f.rollback_errors.push(cause), ..f },
        _ => f,
    }
}

/// The transition of an allocation on event `e`.
pub open spec fn next(f: FlowView, e: Event) -> (FlowView, ActionView) {
    match f.phase {
        AddPhase::CreatingClaim => match e {
            Event::Failed { cause } => fail_with(f, ProvisionError::GatewayError { cause }),
            _ => (FlowView { phase: AddPhase::CreatingPod, ..f }, ActionView::CreatePod),
        },
        AddPhase::CreatingPod => match e {
            Event::Failed { cause } => remove_claim(f, ProvisionError::GatewayError { cause }),
            _ => (
                FlowView { phase: AddPhase::Waiting, ..f },
                ActionView::AwaitRunning { timeout: f.timeout },
            ),
        },
        AddPhase::Waiting => match e {
            Event::Failed { cause } => remove_pod(f, ProvisionError::ProvisioningFailed { cause }),
            Event::TimedOut => remove_pod(f, ProvisionError::ProvisioningTimedOut),
            _ => (FlowView { phase: AddPhase::Resolving, ..f }, ActionView::FetchPod),
        },
        AddPhase::Resolving => match e {
            Event::Fetched { address: Some(a) } => (
                FlowView { phase: AddPhase::Done, ..f },
                ActionView::Finish { outcome: Ok(a) },
            ),
            Event::Failed { cause } => remove_pod(f, ProvisionError::GatewayError { cause }),
            _ => remove_pod(f, ProvisionError::AddressUnavailable),
        },
        AddPhase::RemovingPod => {
            let g = record(f, e);
            remove_claim(g, f.cause->Some_0)
        },
        AddPhase::RemovingClaim => fail_with(record(f, e), f.cause->Some_0),
        AddPhase::Done => (f, ActionView::Finish { outcome: Err((f.cause->Some_0, f.rollback_errors)) }),
    }
}

fn copy_texts(v: &Vec<String>) -> (r: Vec<String>)
    ensures
        r@ == v@,
{
    let mut r: Vec<String> = Vec::new();
    let mut i: usize = 0;
    while i < v.len()
        invariant
            i <= v@.len(),
            r@ == v@.subrange(0, i as int),
        decreases v@.len() - i,
    {
        r.push(v[i].clone());
        i = i + 1;
    }
    r
}

impl AddFlow {
    /// Starts the allocation of `manifests`: the claim first where there is one,
    /// else the pod.
    pub fn start(manifests: &Manifests, timeout: u64) -> (r: (AddFlow, Action))
        ensures
            flow_wf(r.0@),
            (r.0@, r.1@) == start_of(
                manifests.pod.name,
                match manifests.claim {
                    Some(c) => Some(c.name),
                    None => None,
                },
                timeout,
            ),
    {
        let claim_name = match &manifests.claim {
            Some(c) => Some(c.name.clone()),
            None => None,
        };
        let has_claim = claim_name.is_some();
        let flow = AddFlow {
            pod_name: manifests.pod.name.clone(),
            claim_name,
            timeout,
            phase: if has_claim {
                AddPhase::CreatingClaim
            } else {
                AddPhase::CreatingPod
            },
            cause: None,
            rollback_errors: Vec::new(),
        };
        let action = if has_claim {
            Action::CreateClaim
        } else {
            Action::CreatePod
        };
        (flow, action)
    }

    /// Whether `e` can answer the last action.
    pub fn accepts(&self, e: &Event) -> (r: bool)
        ensures
            r == accepts(self.phase, *e),
    {
        match self.phase {
            AddPhase::Waiting => !matches!(e, Event::Fetched { .. }),
            AddPhase::Resolving => matches!(e, Event::Fetched { .. } | Event::Failed { .. }),
            AddPhase::Done => false,
            _ => matches!(e, Event::Succeeded | Event::Failed { .. }),
        }
    }

    fn finish(&mut self, cause: ProvisionError) -> (r: Action)
        ensures
            (final(self)@, r@) == fail_with(old(self)@, cause),
    {
        self.phase = AddPhase::Done;
        self.cause = Some(cause.duplicate());
        Action::Finish {
            outcome: Err(AddFailure { cause, rollback_errors: copy_texts(&self.rollback_errors) }),
        }
    }
    /// Rolls back from the pod on, for `cause`.
    fn begin_rollback(&mut self, cause: ProvisionError) -> (r: Action)
        ensures
            (final(self)@, r@) == remove_pod(old(self)@, cause),
    {
        self.phase = AddPhase::RemovingPod;
        self.cause = Some(cause);
        Action::DeletePod { name: self.pod_name.clone() }
    }

    /// Rolls back the claim, if there is one, for `cause`; else stops.
    fn rollback_claim(&mut self, cause: ProvisionError) -> (r: Action)
        ensures
            (final(self)@, r@) == remove_claim(old(self)@, cause),
    {
        match &self.claim_name {
            Some(c) => {
                let name = c.clone();
                self.phase = AddPhase::RemovingClaim;
                self.cause = Some(cause);
                Action::DeleteClaim { name }
            },
            None => self.finish(cause),
        }
    }

    /// Takes in what came of the last action and says what to do next.
    pub fn step(&mut self, e: Event) -> (r: Action)
        requires
            flow_wf(old(self)@),
            accepts(old(self).phase, e),
        ensures
            flow_wf(final(self)@),
            (final(self)@, r@) == next(old(self)@, e),
    {
        match self.phase {
            AddPhase::CreatingClaim => match e {
                Event::Failed { cause } => self.finish(ProvisionError::GatewayError { cause }),
                _ => {
                    self.phase = AddPhase::CreatingPod;
                    Action::CreatePod
                },
            },
            AddPhase::CreatingPod => match e {
                Event::Failed { cause } => self.rollback_claim(
                    ProvisionError::GatewayError { cause },
                ),
                _ => {
                    self.phase = AddPhase::Waiting;
                    Action::AwaitRunning { timeout: self.timeout }
                },
            },
            AddPhase::Waiting => match e {
                Event::Failed { cause } => self.begin_rollback(
                    ProvisionError::ProvisioningFailed { cause },
                ),
                Event::TimedOut => self.begin_rollback(ProvisionError::ProvisioningTimedOut),
                _ => {
                    self.phase = AddPhase::Resolving;
                    Action::FetchPod
                },
            },
            AddPhase::Resolving => match e {
                Event::Fetched { address: Some(a) } => {
                    self.phase = AddPhase::Done;
                    Action::Finish { outcome: Ok(a) }
                },
                Event::Failed { cause } => self.begin_rollback(
                    ProvisionError::GatewayError { cause },
                ),
                _ => self.begin_rollback(ProvisionError::AddressUnavailable),
            },
            AddPhase::RemovingPod => {
                let cause = self.take_cause();
                self.record(e);
                self.rollback_claim(cause)
            },
            AddPhase::RemovingClaim => {
                let cause = self.take_cause();
                self.record(e);
                self.finish(cause)
            },
            AddPhase::Done => {
                assert(false);
                Action::FetchPod
            },
        }
    }

    fn take_cause(&self) -> (r: ProvisionError)
        requires
            self.cause is Some,
        ensures
            r == self.cause->Some_0,
    {
        match &self.cause {
            Some(c) => c.duplicate(),
            None => ProvisionError::InvalidState,
        }
    }

    fn record(&mut self, e: Event)
        ensures
            final(self)@ == record(old(self)@, e),
    {
        match e {
            Event::Failed { cause } => self.rollback_errors.push(cause),
            _ => {},
        }
    }
}

/// The pod exists and no delete of it has been asked for.
pub open spec fn owes_pod(f: FlowView) -> bool {
    f.phase is Waiting || f.phase is Resolving
}

/// The claim exists and no delete of it has been asked for.
pub open spec fn owes_claim(f: FlowView) -> bool {
    &&& f.claim_name is Some
    &&& (f.phase is CreatingPod || f.phase is Waiting || f.phase is Resolving
        || f.phase is RemovingPod)
}

pub open spec fn reports_failure(a: ActionView) -> bool {
    a matches ActionView::Finish { outcome: Err(_) }
}

pub open spec fn reports_success(a: ActionView) -> bool {
    a matches ActionView::Finish { outcome: Ok(_) }
}

/// Rollback is never skipped: a failure is reported only when nothing created is
/// still undeleted; what was created stops being owed only through the delete
/// call for it (or a success, which hands the pod over); and once rollback has
/// begun its cause is kept and is the one reported, beside the failed deletes.
pub proof fn lemma_rollback_before_failure(f: FlowView, e: Event)
    requires
        flow_wf(f),
        accepts(f.phase, e),
    ensures
        ({
            let (g, a) = next(f, e);
            &&& reports_failure(a) ==> !owes_pod(f) && !owes_claim(f)
            &&& owes_pod(f) && !owes_pod(g) ==> a == (ActionView::DeletePod { name: f.pod_name })
                || reports_success(a)
            &&& owes_claim(f) && !owes_claim(g) ==> a == (ActionView::DeleteClaim {
                name: f.claim_name->Some_0,
            }) || reports_success(a)
            &&& (f.phase is RemovingPod || f.phase is RemovingClaim) ==> g.cause == f.cause
            &&& (f.phase is RemovingPod || f.phase is RemovingClaim) && reports_failure(a) ==> a
                == (ActionView::Finish {
                outcome: Err((f.cause->Some_0, record(f, e).rollback_errors)),
            })
        }),
{
}

} // verus!
