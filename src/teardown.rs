use vstd::prelude::*;
use vstd::string::StringExecFns;
use crate::error::ProvisionError;
use crate::labels::LabelMap;
use crate::manifest::{APP_LABEL, HAS_VOLUME_LABEL, OWNER_MARKER};

verus! {

/// Field selector that lists the pods holding a network address.
pub const POD_IP_FIELD: &'static str = "status.podIP=";

/// What teardown sees of a pod that the cluster listed.
#[derive(Debug)]
pub struct PodSnapshot {
    pub name: String,
    pub labels: LabelMap,
    pub address: Option<String>,
}

/// One delete call of teardown.
#[derive(Debug, PartialEq, Eq)]
pub enum DeleteStep {
    DeletePod { name: String },
    DeleteClaim { name: String },
}

pub enum StepView {
    Pod(Seq<char>),
    Claim(Seq<char>),
}

impl View for DeleteStep {
    type V = StepView;

    open spec fn view(&self) -> StepView {
        match self {
            DeleteStep::DeletePod { name } => StepView::Pod(name@),
            DeleteStep::DeleteClaim { name } => StepView::Claim(name@),
        }
    }
}

pub open spec fn steps_view(s: Seq<DeleteStep>) -> Seq<StepView> {
    s.map_values(|d: DeleteStep| d@)
}

/// The name a step deletes.
pub open spec fn step_target(s: StepView) -> Seq<char> {
    match s {
        StepView::Pod(n) => n,
        StepView::Claim(n) => n,
    }
}

/// The labels show that this tool created the resource.
pub open spec fn is_owned(labels: Map<Seq<char>, Seq<char>>) -> bool {
    labels.contains_key(APP_LABEL@) && labels[APP_LABEL@] == OWNER_MARKER@
}

/// The labels show that the pod had a claim of the same name.
pub open spec fn marks_volume(labels: Map<Seq<char>, Seq<char>>) -> bool {
    labels.contains_key(HAS_VOLUME_LABEL@) && labels[HAS_VOLUME_LABEL@] == "true"@
}

/// The delete calls for one listed pod: none for a pod this tool does not own;
/// else the pod, then its claim where its labels mark one.
pub open spec fn steps_for(p: PodSnapshot) -> Seq<StepView> {
    if !is_owned(p.labels@) {
        seq![]
    } else if marks_volume(p.labels@) {
        seq![StepView::Pod(p.name@), StepView::Claim(p.name@)]
    } else {
        seq![StepView::Pod(p.name@)]
    }
}

/// The delete calls for the listed pods, pod by pod in listing order.
pub open spec fn delete_plan(pods: Seq<PodSnapshot>) -> Seq<StepView>
    decreases pods.len(),
{
    if pods.len() == 0 {
        seq![]
    } else {
        delete_plan(pods.drop_last()) + steps_for(pods.last())
    }
}

/// The field selector that lists the pods with network address `address`.
pub fn pod_ip_selector(address: &str) -> (r: String)
    ensures
        r@ == POD_IP_FIELD@ + address@,
{
    let mut r = String::from_str(POD_IP_FIELD);
    r.append(address);
    r
}

/// The delete calls of teardown, given the pods listed at `address`. Fails with
/// `NotFound`, and only then, where nothing was listed. The calls are made in
/// order; the first that fails ends teardown.
pub fn plan_delete(address: &str, pods: &Vec<PodSnapshot>) -> (r: Result<
    Vec<DeleteStep>,
    ProvisionError,
>)
    requires
        forall|i: int| 0 <= i < pods@.len() ==> (#[trigger] pods@[i]).labels.wf(),
    ensures
        match r {
            Ok(steps) => pods@.len() > 0 && steps_view(steps@) == delete_plan(pods@),
            Err(e) => pods@.len() == 0 && (e matches ProvisionError::NotFound { address: a } && a@
                == address@),
        },
{
    if pods.len() == 0 {
        return Err(ProvisionError::NotFound { address: String::from_str(address) });
    }
    let mut steps: Vec<DeleteStep> = Vec::new();
    let mut i: usize = 0;
    while i < pods.len()
        invariant
            i <= pods@.len(),
            forall|j: int| 0 <= j < pods@.len() ==> (#[trigger] pods@[j]).labels.wf(),
            steps_view(steps@) == delete_plan(pods@.subrange(0, i as int)),
        decreases pods@.len() - i,
    {
        let p = &pods[i];
        let ghost before = steps@;
        assert(pods@.subrange(0, i + 1).drop_last() == pods@.subrange(0, i as int));
        let owned = match p.labels.get(APP_LABEL) {
            Some(v) => v == String::from_str(OWNER_MARKER),
            None => false,
        };
        if owned {
            steps.push(DeleteStep::DeletePod { name: p.name.clone() });
            let with_claim = match p.labels.get(HAS_VOLUME_LABEL) {
                Some(v) => v == String::from_str("true"),
                None => false,
            };
            if with_claim {
                steps.push(DeleteStep::DeleteClaim { name: p.name.clone() });
            }
        }
        assert(steps_view(steps@) =~= steps_view(before) + steps_for(pods@[i as int]));
        i = i + 1;
    }
    assert(pods@.subrange(0, pods@.len() as int) == pods@);
    Ok(steps)
}

/// Teardown deletes only what this tool owns: every name that a delete call
/// targets is the name of a listed pod whose labels carry the ownership marker.
pub proof fn lemma_delete_only_owned(pods: Seq<PodSnapshot>, k: int)
    requires
        0 <= k < delete_plan(pods).len(),
    ensures
        exists|j: int|
            0 <= j < pods.len() && is_owned(pods[j].labels@) && #[trigger] pods[j].name@
                == step_target(delete_plan(pods)[k]),
    decreases pods.len(),
{
    let rest = pods.drop_last();
    let head = delete_plan(rest);
    if k < head.len() {
        lemma_delete_only_owned(rest, k);
        let j = choose|j: int|
            0 <= j < rest.len() && is_owned(rest[j].labels@) && #[trigger] rest[j].name@
                == step_target(head[k]);
        assert(pods[j] == rest[j]);
    } else {
        assert(pods[pods.len() - 1].name@ == step_target(delete_plan(pods)[k]));
    }
}

} // verus!
