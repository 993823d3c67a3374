use vstd::prelude::*;
use vstd::string::StringExecFns;
use crate::error::ProvisionError;
use crate::identity::{claim_name_of, get_pvc_name};
use crate::labels::{
    apply_pairs, lemma_merge_overrides_base, merge_pairs, pairs_map, parse_pairs, texts, LabelMap,
};

verus! {

/// Value of the `app` label on everything this tool creates; teardown deletes
/// nothing without it.
pub const OWNER_MARKER: &'static str = "resalloc-kubernetes";

/// Label that marks ownership.
pub const APP_LABEL: &'static str = "app";

/// Label that tells whether the pod has a claim mounted.
pub const HAS_VOLUME_LABEL: &'static str = "has_volume";

/// Image pull policy of the sandbox container.
pub const PULL_POLICY: &'static str = "IfNotPresent";

/// Access mode of every claim: one writer.
pub const ACCESS_MODE: &'static str = "ReadWriteOnce";

/// A volume mounted into the container. As a secret descriptor it names the
/// secret, where to mount it, and the key to mount.
#[derive(Clone, Debug)]
pub struct VolumeMount {
    pub mount_path: String,
    pub name: String,
    pub sub_path: Option<String>,
}

pub struct MountView {
    pub mount_path: Seq<char>,
    pub name: Seq<char>,
    pub sub_path: Option<Seq<char>>,
}

pub open spec fn opt_text(o: Option<String>) -> Option<Seq<char>> {
    match o {
        Some(s) => Some(s@),
        None => None,
    }
}

impl View for VolumeMount {
    type V = MountView;

    open spec fn view(&self) -> MountView {
        MountView { mount_path: self.mount_path@, name: self.name@, sub_path: opt_text(self.sub_path) }
    }
}

/// A volume of the pod: a secret, or a persistent volume claim.
#[derive(Debug)]
pub enum Volume {
    Secret { name: String, secret_name: String },
    Claim { name: String, claim_name: String },
}

pub enum VolumeView {
    Secret { name: Seq<char>, secret_name: Seq<char> },
    Claim { name: Seq<char>, claim_name: Seq<char> },
}

impl View for Volume {
    type V = VolumeView;

    open spec fn view(&self) -> VolumeView {
        match self {
            Volume::Secret { name, secret_name } => VolumeView::Secret {
                name: name@,
                secret_name: secret_name@,
            },
            Volume::Claim { name, claim_name } => VolumeView::Claim {
                name: name@,
                claim_name: claim_name@,
            },
        }
    }
}

pub open spec fn mounts_view(v: Seq<VolumeMount>) -> Seq<MountView> {
    v.map_values(|m: VolumeMount| m@)
}

pub open spec fn volumes_view(v: Seq<Volume>) -> Seq<VolumeView> {
    v.map_values(|m: Volume| m@)
}

fn copy_text(o: &Option<String>) -> (r: Option<String>)
    ensures
        r == *o,
{
    match o {
        Some(s) => Some(s.clone()),
        None => None,
    }
}

/// The mount entry of a secret: its path, key and name as the descriptor gives them.
pub fn secret_mount(mount_path: &String, sub_path: &Option<String>, name: &String) -> (r:
    VolumeMount)
    ensures
        r.mount_path == *mount_path,
        r.sub_path == *sub_path,
        r.name == *name,
{
    VolumeMount { mount_path: mount_path.clone(), name: name.clone(), sub_path: copy_text(sub_path) }
}

/// The mount entry of a claim volume.
pub fn claim_mount(mount_path: &String, name: &String) -> (r: VolumeMount)
    ensures
        r.mount_path == *mount_path,
        r.name == *name,
        r.sub_path is None,
{
    VolumeMount { mount_path: mount_path.clone(), name: name.clone(), sub_path: None }
}

/// A volume that holds secret `secret`.
pub fn secret_volume(volume: &String, secret: &String) -> (r: Volume)
    ensures
        r == (Volume::Secret { name: *volume, secret_name: *secret }),
{
    Volume::Secret { name: volume.clone(), secret_name: secret.clone() }
}

/// A volume backed by claim `claim_name`.
pub fn claim_volume(claim_name: &String, volume_name: &String) -> (r: Volume)
    ensures
        r == (Volume::Claim { name: *volume_name, claim_name: *claim_name }),
{
    Volume::Claim { name: volume_name.clone(), claim_name: claim_name.clone() }
}

/// CPU and memory quantities as given ("100m", "500Mi"); they are not parsed.
#[derive(Debug)]
pub struct Quantities {
    pub cpu: String,
    pub memory: String,
}

/// The one container of a sandbox pod.
#[derive(Debug)]
pub struct Container {
    pub name: String,
    pub image: String,
    pub image_pull_policy: String,
    pub privileged: bool,
    pub limits: Quantities,
    pub requests: Quantities,
    pub volume_mounts: Vec<VolumeMount>,
}

/// A sandbox pod as it is submitted to the cluster.
#[derive(Debug)]
pub struct PodManifest {
    pub name: String,
    pub namespace: String,
    pub labels: LabelMap,
    pub node_selector: Option<LabelMap>,
    pub container: Container,
    pub volumes: Vec<Volume>,
}

/// A persistent volume claim as it is submitted to the cluster.
#[derive(Debug)]
pub struct ClaimManifest {
    pub name: String,
    pub namespace: String,
    pub labels: LabelMap,
    pub access_mode: String,
    pub storage: String,
    pub storage_class: String,
}

pub struct ContainerView {
    pub name: Seq<char>,
    pub image: Seq<char>,
    pub image_pull_policy: Seq<char>,
    pub privileged: bool,
    pub limits: (Seq<char>, Seq<char>),
    pub requests: (Seq<char>, Seq<char>),
    pub volume_mounts: Seq<MountView>,
}

pub struct PodView {
    pub name: Seq<char>,
    pub namespace: Seq<char>,
    pub labels: Map<Seq<char>, Seq<char>>,
    pub node_selector: Option<Map<Seq<char>, Seq<char>>>,
    pub container: ContainerView,
    pub volumes: Seq<VolumeView>,
}

pub struct ClaimView {
    pub name: Seq<char>,
    pub namespace: Seq<char>,
    pub labels: Map<Seq<char>, Seq<char>>,
    pub access_mode: Seq<char>,
    pub storage: Seq<char>,
    pub storage_class: Seq<char>,
}

pub open spec fn selector_view(m: Option<LabelMap>) -> Option<Map<Seq<char>, Seq<char>>> {
    match m {
        Some(m) => Some(m@),
        None => None,
    }
}

impl View for PodManifest {
    type V = PodView;

    open spec fn view(&self) -> PodView {
        PodView {
            name: self.name@,
            namespace: self.namespace@,
            labels: self.labels@,
            node_selector: selector_view(self.node_selector),
            container: ContainerView {
                name: self.container.name@,
                image: self.container.image@,
                image_pull_policy: self.container.image_pull_policy@,
                privileged: self.container.privileged,
                limits: (self.container.limits.cpu@, self.container.limits.memory@),
                requests: (self.container.requests.cpu@, self.container.requests.memory@),
                volume_mounts: mounts_view(self.container.volume_mounts@),
            },
            volumes: volumes_view(self.volumes@),
        }
    }
}

impl PodManifest {
    /// Its label and selector mappings hold each key once.
    pub open spec fn wf(&self) -> bool {
        &&& self.labels.wf()
        &&& match self.node_selector {
            Some(m) => m.wf(),
            None => true,
        }
    }
}

impl View for ClaimManifest {
    type V = ClaimView;

    open spec fn view(&self) -> ClaimView {
        ClaimView {
            name: self.name@,
            namespace: self.namespace@,
            labels: self.labels@,
            access_mode: self.access_mode@,
            storage: self.storage@,
            storage_class: self.storage_class@,
        }
    }
}

/// What a sandbox is asked to be.
#[derive(Clone, Debug)]
pub struct CommandAdd {
    /// Seconds to wait for the pod to run.
    pub timeout: u64,
    pub image_tag: String,
    pub cpu_resource: String,
    pub memory_resource: String,
    /// `KEY=VALUE` entries for the pod's node selector.
    pub node_selector: Vec<String>,
    pub privileged: bool,
    /// `KEY=VALUE` entries added to the pod's labels.
    pub additional_labels: Vec<String>,
    pub additional_volume_size: Option<String>,
    pub additional_volume_class: Option<String>,
    pub additional_volume_mount_path: Option<String>,
    /// Build the manifests only; contact no cluster.
    pub dry_run: bool,
    /// A secret to mount.
    pub secret: Option<VolumeMount>,
}

/// All three volume fields are given: the request asks for a claim.
pub open spec fn volume_requested(cmd: CommandAdd) -> bool {
    &&& cmd.additional_volume_size is Some
    &&& cmd.additional_volume_class is Some
    &&& cmd.additional_volume_mount_path is Some
}

pub open spec fn bool_view(b: bool) -> Seq<char> {
    if b {
        "true"@
    } else {
        "false"@
    }
}

/// The labels every pod starts with.
pub open spec fn base_labels(has_volume: bool) -> Map<Seq<char>, Seq<char>> {
    map![APP_LABEL@ => OWNER_MARKER@, HAS_VOLUME_LABEL@ => bool_view(has_volume)]
}

/// The labels every claim has.
pub open spec fn claim_labels() -> Map<Seq<char>, Seq<char>> {
    map![APP_LABEL@ => OWNER_MARKER@]
}

pub open spec fn secret_volumes(secret: Option<VolumeMount>) -> Seq<VolumeView> {
    match secret {
        Some(m) => seq![VolumeView::Secret { name: m.name@, secret_name: m.name@ }],
        None => seq![],
    }
}

pub open spec fn secret_mounts(secret: Option<VolumeMount>) -> Seq<MountView> {
    match secret {
        Some(m) => seq![m@],
        None => seq![],
    }
}

pub open spec fn claim_volumes(claim_name: Seq<char>, has_volume: bool) -> Seq<VolumeView> {
    if has_volume {
        seq![VolumeView::Claim { name: claim_name, claim_name }]
    } else {
        seq![]
    }
}

pub open spec fn claim_mounts(mount_path: Option<String>, claim_name: Seq<char>, has_volume: bool) -> Seq<
    MountView,
> {
    if has_volume {
        seq![MountView { mount_path: mount_path->Some_0@, name: claim_name, sub_path: None }]
    } else {
        seq![]
    }
}

/// The node selector a pod gets from a list of entries: none for an empty list.
pub open spec fn selector_of(entries: Seq<String>) -> Option<Map<Seq<char>, Seq<char>>> {
    if entries.len() == 0 {
        None
    } else {
        Some(pairs_map(texts(entries)))
    }
}

/// The pod named `name` that `cmd` asks for, with claim `claim_name` mounted when
/// `has_volume`: secret entries come before the claim's, user labels override the
/// base labels, and limits equal requests.
pub open spec fn expected_pod(
    cmd: CommandAdd,
    namespace: Seq<char>,
    name: Seq<char>,
    claim_name: Seq<char>,
    has_volume: bool,
) -> PodView {
    PodView {
        name,
        namespace,
        labels: apply_pairs(base_labels(has_volume), texts(cmd.additional_labels@)),
        node_selector: selector_of(cmd.node_selector@),
        container: ContainerView {
            name,
            image: cmd.image_tag@,
            image_pull_policy: PULL_POLICY@,
            privileged: cmd.privileged,
            limits: (cmd.cpu_resource@, cmd.memory_resource@),
            requests: (cmd.cpu_resource@, cmd.memory_resource@),
            volume_mounts: secret_mounts(cmd.secret) + claim_mounts(
                cmd.additional_volume_mount_path,
                claim_name,
                has_volume,
            ),
        },
        volumes: secret_volumes(cmd.secret) + claim_volumes(claim_name, has_volume),
    }
}

/// The claim named `name` that `cmd` asks for.
pub open spec fn expected_claim(cmd: CommandAdd, namespace: Seq<char>, name: Seq<char>) -> ClaimView {
    ClaimView {
        name,
        namespace,
        labels: claim_labels(),
        access_mode: ACCESS_MODE@,
        storage: cmd.additional_volume_size->Some_0@,
        storage_class: cmd.additional_volume_class->Some_0@,
    }
}

fn bool_text(b: bool) -> (r: String)
    ensures
        r@ == bool_view(b),
{
    if b {
        String::from_str("true")
    } else {
        String::from_str("false")
    }
}

/// The pod of `cmd` before user labels and node selectors. A claim needs its
/// mount path.
pub fn create_simple_pod(
    cmd: &CommandAdd,
    namespace: &str,
    name: &str,
    pvc_name: &str,
    has_volume: bool,
) -> (pod: PodManifest)
    requires
        !(has_volume && cmd.additional_volume_mount_path is None),
    ensures
        pod.wf(),
        pod@ == (PodView {
            labels: base_labels(has_volume),
            node_selector: None,
            ..expected_pod(*cmd, namespace@, name@, pvc_name@, has_volume)
        }),
{
    let name_s = String::from_str(name);
    let claim = String::from_str(pvc_name);
    let mut volumes: Vec<Volume> = Vec::new();
    let mut mounts: Vec<VolumeMount> = Vec::new();
    match &cmd.secret {
        Some(secret) => {
            mounts.push(secret_mount(&secret.mount_path, &secret.sub_path, &secret.name));
            volumes.push(secret_volume(&secret.name, &secret.name));
        },
        None => {},
    }
    if has_volume {
        volumes.push(claim_volume(&claim, &claim));
        match &cmd.additional_volume_mount_path {
            Some(path) => {
                mounts.push(claim_mount(path, &claim));
            },
            None => {},
        }
    }
    let mut labels = LabelMap::new();
    labels.insert(String::from_str(APP_LABEL), String::from_str(OWNER_MARKER));
    labels.insert(String::from_str(HAS_VOLUME_LABEL), bool_text(has_volume));
    let container = Container {
        name: name_s.clone(),
        image: cmd.image_tag.clone(),
        image_pull_policy: String::from_str(PULL_POLICY),
        privileged: cmd.privileged,
        limits: Quantities { cpu: cmd.cpu_resource.clone(), memory: cmd.memory_resource.clone() },
        requests: Quantities { cpu: cmd.cpu_resource.clone(), memory: cmd.memory_resource.clone() },
        volume_mounts: mounts,
    };
    let pod = PodManifest {
        name: name_s,
        namespace: String::from_str(namespace),
        labels,
        node_selector: None,
        container,
        volumes,
    };
    let ghost want = expected_pod(*cmd, namespace@, name@, pvc_name@, has_volume);
    assert(pod@.labels =~= base_labels(has_volume));
    assert(pod@.volumes =~= want.volumes);
    assert(pod@.container.volume_mounts =~= want.container.volume_mounts);
    pod
}

/// Installing `selectors` fails: there are some, and the selector is already set.
pub open spec fn install_fails(already_set: bool, selectors: Seq<String>) -> bool {
    selectors.len() > 0 && already_set
}

/// The node selector after `selectors` were installed over `current`.
pub open spec fn selector_after(
    current: Option<Map<Seq<char>, Seq<char>>>,
    selectors: Seq<String>,
) -> Option<Map<Seq<char>, Seq<char>>> {
    if selectors.len() == 0 || current is Some {
        current
    } else {
        Some(pairs_map(texts(selectors)))
    }
}

/// Installs the node selector given by `selectors`. Nothing changes for an empty
/// list; a pod whose selector is already set is left as it is and the step fails
/// with `InvalidState`.
pub fn install_node_selector(pod: &mut PodManifest, selectors: &Vec<String>) -> (r: Result<
    (),
    ProvisionError,
>)
    requires
        old(pod).wf(),
    ensures
        final(pod).wf(),
        r is Ok <==> !install_fails(old(pod).node_selector is Some, selectors@),
        r is Err ==> r == Err::<(), ProvisionError>(ProvisionError::InvalidState) && *final(pod)
            == *old(pod),
        selectors@.len() == 0 ==> *final(pod) == *old(pod),
        final(pod)@ == (PodView {
            node_selector: selector_after(old(pod)@.node_selector, selectors@),
            ..old(pod)@
        }),
{
    if selectors.len() == 0 {
        return Ok(());
    }
    match &pod.node_selector {
        Some(_) => Err(ProvisionError::InvalidState),
        None => {
            pod.node_selector = Some(parse_pairs(selectors));
            Ok(())
        },
    }
}

/// The pod of `cmd`, named `name`, with claim `pvc_name` mounted when
/// `create_volume`. Fails with `InvalidRequest`, and only then, where a claim is
/// asked for without a mount path.
pub fn generate_pod_resource(
    cmd: &CommandAdd,
    namespace: &str,
    name: &str,
    pvc_name: &str,
    create_volume: bool,
) -> (r: Result<PodManifest, ProvisionError>)
    ensures
        match r {
            Ok(pod) => {
                &&& !(create_volume && cmd.additional_volume_mount_path is None)
                &&& pod.wf()
                &&& pod@ == expected_pod(*cmd, namespace@, name@, pvc_name@, create_volume)
            },
            Err(e) => create_volume && cmd.additional_volume_mount_path is None && e
                == ProvisionError::InvalidRequest,
        },
{
    if create_volume && cmd.additional_volume_mount_path.is_none() {
        return Err(ProvisionError::InvalidRequest);
    }
    Ok(compose_pod(cmd, namespace, name, pvc_name, create_volume))
}

/// The full pod: the simple pod with the user labels merged in and the node
/// selector installed.
fn compose_pod(cmd: &CommandAdd, namespace: &str, name: &str, pvc_name: &str, has_volume: bool) -> (pod:
    PodManifest)
    requires
        !(has_volume && cmd.additional_volume_mount_path is None),
    ensures
        pod.wf(),
        pod@ == expected_pod(*cmd, namespace@, name@, pvc_name@, has_volume),
{
    let mut pod = create_simple_pod(cmd, namespace, name, pvc_name, has_volume);
    merge_pairs(&mut pod.labels, &cmd.additional_labels);
    let installed = install_node_selector(&mut pod, &cmd.node_selector);
    assert(pod@ == expected_pod(*cmd, namespace@, name@, pvc_name@, has_volume));
    pod
}

/// The claim of `cmd`, named `pvc_name`. Fails with `InvalidRequest`, and only
/// then, where one of the three volume fields is missing.
pub fn generate_pvc_resource(cmd: &CommandAdd, namespace: &str, pvc_name: &str) -> (r: Result<
    ClaimManifest,
    ProvisionError,
>)
    ensures
        match r {
            Ok(claim) => {
                &&& volume_requested(*cmd)
                &&& claim.labels.wf()
                &&& claim@ == expected_claim(*cmd, namespace@, pvc_name@)
            },
            Err(e) => !volume_requested(*cmd) && e == ProvisionError::InvalidRequest,
        },
{
    if !has_volume_request(cmd) {
        return Err(ProvisionError::InvalidRequest);
    }
    let storage = match &cmd.additional_volume_size {
        Some(s) => s.clone(),
        None => {
            return Err(ProvisionError::InvalidRequest);
        },
    };
    let storage_class = match &cmd.additional_volume_class {
        Some(s) => s.clone(),
        None => {
            return Err(ProvisionError::InvalidRequest);
        },
    };
    let mut labels = LabelMap::new();
    labels.insert(String::from_str(APP_LABEL), String::from_str(OWNER_MARKER));
    let claim = ClaimManifest {
        name: String::from_str(pvc_name),
        namespace: String::from_str(namespace),
        labels,
        access_mode: String::from_str(ACCESS_MODE),
        storage,
        storage_class,
    };
    assert(claim@.labels =~= claim_labels());
    Ok(claim)
}

/// Whether all three volume fields are given.
pub fn has_volume_request(cmd: &CommandAdd) -> (r: bool)
    ensures
        r == volume_requested(*cmd),
{
    cmd.additional_volume_size.is_some() && cmd.additional_volume_class.is_some()
        && cmd.additional_volume_mount_path.is_some()
}

/// The pod and, where a volume is asked for, the claim of one sandbox.
#[derive(Debug)]
pub struct Manifests {
    pub pod: PodManifest,
    pub claim: Option<ClaimManifest>,
}

/// The claim name a request uses: shared by namespace and storage class, and
/// empty where no volume is asked for.
pub open spec fn claim_name_for(cmd: CommandAdd, namespace: Seq<char>) -> Seq<char> {
    if volume_requested(cmd) {
        claim_name_of(namespace, cmd.additional_volume_class->Some_0@)
    } else {
        Seq::empty()
    }
}

/// The pod that `cmd` gives in `namespace` under sandbox name `name`.
pub open spec fn request_pod(cmd: CommandAdd, namespace: Seq<char>, name: Seq<char>) -> PodView {
    expected_pod(cmd, namespace, name, claim_name_for(cmd, namespace), volume_requested(cmd))
}

/// `m` holds the manifests that `cmd` gives for sandbox `name`.
pub open spec fn built_from(m: Manifests, cmd: CommandAdd, namespace: Seq<char>, name: Seq<char>) -> bool {
    &&& m.pod.wf()
    &&& m.pod@ == request_pod(cmd, namespace, name)
    &&& match m.claim {
        Some(c) => volume_requested(cmd) && c.labels.wf() && c@ == expected_claim(
            cmd,
            namespace,
            claim_name_for(cmd, namespace),
        ),
        None => !volume_requested(cmd),
    }
}

pub open spec fn claim_view(c: Option<ClaimManifest>) -> Option<ClaimView> {
    match c {
        Some(c) => Some(c@),
        None => None,
    }
}

/// Building is deterministic: two builds from the same request, namespace and
/// sandbox name give the same pod and the same claim.
pub proof fn lemma_build_deterministic(
    cmd: CommandAdd,
    namespace: Seq<char>,
    name: Seq<char>,
    m1: Manifests,
    m2: Manifests,
)
    requires
        built_from(m1, cmd, namespace, name),
        built_from(m2, cmd, namespace, name),
    ensures
        m1.pod@ == m2.pod@,
        claim_view(m1.claim) == claim_view(m2.claim),
{
}

/// Without all three volume fields the pod has no claim volume and mounts only
/// the secret; with all three it has exactly one claim volume and one claim
/// mount, after the secret's entries.
pub proof fn lemma_volume_all_or_nothing(cmd: CommandAdd, namespace: Seq<char>, name: Seq<char>)
    ensures
        forall|i: int|
            0 <= i < secret_volumes(cmd.secret).len() ==> (#[trigger] secret_volumes(
                cmd.secret,
            )[i]) is Secret,
        !volume_requested(cmd) ==> {
            let pod = request_pod(cmd, namespace, name);
            &&& forall|i: int| 0 <= i < pod.volumes.len() ==> !(#[trigger] pod.volumes[i] is Claim)
            &&& pod.volumes == secret_volumes(cmd.secret)
            &&& pod.container.volume_mounts == secret_mounts(cmd.secret)
        },
        volume_requested(cmd) ==> {
            let pod = request_pod(cmd, namespace, name);
            let c = claim_name_of(namespace, cmd.additional_volume_class->Some_0@);
            &&& pod.volumes == secret_volumes(cmd.secret).push(
                VolumeView::Claim { name: c, claim_name: c },
            )
            &&& pod.container.volume_mounts == secret_mounts(cmd.secret).push(
                MountView {
                    mount_path: cmd.additional_volume_mount_path->Some_0@,
                    name: c,
                    sub_path: None,
                },
            )
        },
{
    let pod = request_pod(cmd, namespace, name);
    if volume_requested(cmd) {
        assert(pod.volumes =~= secret_volumes(cmd.secret).push(
            VolumeView::Claim {
                name: claim_name_for(cmd, namespace),
                claim_name: claim_name_for(cmd, namespace),
            },
        ));
        assert(pod.container.volume_mounts =~= secret_mounts(cmd.secret).push(
            MountView {
                mount_path: cmd.additional_volume_mount_path->Some_0@,
                name: claim_name_for(cmd, namespace),
                sub_path: None,
            },
        ));
    } else {
        assert(pod.volumes =~= secret_volumes(cmd.secret));
        assert(pod.container.volume_mounts =~= secret_mounts(cmd.secret));
    }
}

/// With both a secret and a volume, the secret's volume and mount come first and
/// the claim's second.
pub proof fn lemma_secret_before_claim(cmd: CommandAdd, namespace: Seq<char>, name: Seq<char>)
    requires
        cmd.secret is Some,
        volume_requested(cmd),
    ensures
        ({
            let pod = request_pod(cmd, namespace, name);
            let s = cmd.secret->Some_0;
            let c = claim_name_of(namespace, cmd.additional_volume_class->Some_0@);
            &&& pod.volumes == seq![
                VolumeView::Secret { name: s.name@, secret_name: s.name@ },
                VolumeView::Claim { name: c, claim_name: c },
            ]
            &&& pod.container.volume_mounts == seq![
                s@,
                MountView {
                    mount_path: cmd.additional_volume_mount_path->Some_0@,
                    name: c,
                    sub_path: None,
                },
            ]
        }),
{
    let pod = request_pod(cmd, namespace, name);
    let s = cmd.secret->Some_0;
    let c = claim_name_of(namespace, cmd.additional_volume_class->Some_0@);
    assert(pod.volumes =~= seq![
        VolumeView::Secret { name: s.name@, secret_name: s.name@ },
        VolumeView::Claim { name: c, claim_name: c },
    ]);
    assert(pod.container.volume_mounts =~= seq![
        s@,
        MountView {
            mount_path: cmd.additional_volume_mount_path->Some_0@,
            name: c,
            sub_path: None,
        },
    ]);
}

/// The pod's labels are the base labels with the user's entries merged over
/// them: a base label stays unless an entry sets its key, and then the entry wins.
pub proof fn lemma_pod_labels(
    cmd: CommandAdd,
    namespace: Seq<char>,
    name: Seq<char>,
    claim_name: Seq<char>,
    has_volume: bool,
)
    ensures
        expected_pod(cmd, namespace, name, claim_name, has_volume).labels == base_labels(
            has_volume,
        ).union_prefer_right(pairs_map(texts(cmd.additional_labels@))),
{
    lemma_merge_overrides_base(base_labels(has_volume), texts(cmd.additional_labels@));
}

/// The node selector is installed once: after one install with entries, a second
/// install with entries fails, whether the first succeeded or not.
pub proof fn lemma_selector_installs_once(
    current: Option<Map<Seq<char>, Seq<char>>>,
    first: Seq<String>,
    second: Seq<String>,
)
    requires
        first.len() > 0,
        second.len() > 0,
    ensures
        install_fails(selector_after(current, first) is Some, second),
{
}

/// Builds the manifests of sandbox `name`: a claim exactly where all three volume
/// fields are given, and the pod, which mounts that claim.
pub fn build_manifests(cmd: &CommandAdd, namespace: &str, name: &str) -> (r: Manifests)
    ensures
        built_from(r, *cmd, namespace@, name@),
{
    let has_volume = has_volume_request(cmd);
    let mut pvc_name = String::new();
    let mut claim: Option<ClaimManifest> = None;
    if has_volume {
        match &cmd.additional_volume_class {
            Some(class) => {
                pvc_name = get_pvc_name(namespace, class.as_str());
            },
            None => {},
        }
        match generate_pvc_resource(cmd, namespace, pvc_name.as_str()) {
            Ok(c) => {
                claim = Some(c);
            },
            Err(_) => {},
        }
    }
    assert(pvc_name@ == claim_name_for(*cmd, namespace@));
    let pod = compose_pod(cmd, namespace, name, pvc_name.as_str(), has_volume);
    Manifests { pod, claim }
}

/// `i` and `j` are the two ':' of `s`.
pub open spec fn is_mount_split(s: Seq<char>, i: int, j: int) -> bool {
    &&& 0 <= i < j < s.len()
    &&& s[i] == ':'
    &&& s[j] == ':'
    &&& forall|k: int| 0 <= k < s.len() && k != i && k != j ==> #[trigger] s[k] != ':'
}

/// The three parts of a `MOUNT:NAME:SUBPATH` descriptor: there are exactly two ':'.
/// A part may be empty.
pub open spec fn mount_parts(s: Seq<char>) -> Option<(Seq<char>, Seq<char>, Seq<char>)> {
    if exists|i: int, j: int| is_mount_split(s, i, j) {
        let (i, j) = choose|i: int, j: int| is_mount_split(s, i, j);
        Some((s.subrange(0, i), s.subrange(i + 1, j), s.subrange(j + 1, s.len() as int)))
    } else {
        None
    }
}

/// Reads a secret descriptor `MOUNT:NAME:SUBPATH`; anything without exactly two
/// ':' is refused.
pub fn parse_volume_mount(value: &str) -> (r: Result<VolumeMount, String>)
    ensures
        match r {
            Ok(m) => m.sub_path is Some && mount_parts(value@) == Some(
                (m.mount_path@, m.name@, m.sub_path->Some_0@),
            ),
            Err(_) => mount_parts(value@) is None,
        },
{
    let n = value.unicode_len();
    let ghost s = value@;
    let mut first: Option<usize> = None;
    let mut second: Option<usize> = None;
    let mut third: Option<usize> = None;
    let mut i: usize = 0;
    while i < n
        invariant
            n == s.len(),
            s == value@,
            i <= n,
            match first {
                None => second is None && third is None && forall|k: int|
                    0 <= k < i ==> #[trigger] s[k] != ':',
                Some(p) => p < i && s[p as int] == ':' && match second {
                    None => third is None && forall|k: int|
                        0 <= k < i && k != p ==> #[trigger] s[k] != ':',
                    Some(q) => p < q < i && s[q as int] == ':' && match third {
                        None => forall|k: int|
                            0 <= k < i && k != p && k != q ==> #[trigger] s[k] != ':',
                        Some(t) => t < i && t != p && t != q && s[t as int] == ':',
                    },
                },
            },
        decreases n - i,
    {
        let c = value.get_char(i);
        assert(s[i as int] == c);
        if c == ':' {
            match first {
                None => {
                    first = Some(i);
                },
                Some(_) => {
                    match second {
                        None => {
                            second = Some(i);
                        },
                        Some(_) => {
                            if third.is_none() {
                                third = Some(i);
                            }
                        },
                    }
                },
            }
        }
        i = i + 1;
    }
    let refused = String::from_str("expected <mountPath>:<name>:<subPath>");
    match (first, second, third) {
        (Some(p), Some(q), None) => {
            assert(is_mount_split(s, p as int, q as int));
            let ghost pick = choose|a: int, b: int| is_mount_split(s, a, b);
            assert(pick == (p as int, q as int)) by {
                if pick.0 != p as int {
                    assert(s[p as int] != ':' || s[q as int] != ':');
                } else if pick.1 != q as int {
                    assert(s[q as int] != ':');
                }
            }
            let mount_path = String::from_str(value.substring_char(0, p));
            let name = String::from_str(value.substring_char(p + 1, q));
            let sub_path = String::from_str(value.substring_char(q + 1, n));
            Ok(VolumeMount { mount_path, name, sub_path: Some(sub_path) })
        },
        _ => {
            assert forall|a: int, b: int| !is_mount_split(s, a, b) by {
                if is_mount_split(s, a, b) {
                    match first {
                        None => {
                            assert(s[a] != ':');
                        },
                        Some(p) => {
                            match second {
                                None => {
                                    assert(s[a] != ':' || s[b] != ':');
                                },
                                Some(q) => {
                                    let t = third->Some_0;
                                    assert(s[p as int] != ':' || s[q as int] != ':' || s[t as int]
                                        != ':');
                                },
                            }
                        },
                    }
                }
            }
            Err(refused)
        },
    }
}

} // verus!
