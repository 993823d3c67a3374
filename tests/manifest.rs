use resalloc_kubernetes::error::ProvisionError;
use resalloc_kubernetes::identity::{get_pvc_name, new_sandbox_id, sandbox_name};
use resalloc_kubernetes::manifest::{
    build_manifests, generate_pod_resource, generate_pvc_resource, install_node_selector,
    parse_volume_mount, CommandAdd, Volume, VolumeMount,
};

const POD_NAME: &str = "resalloc-9a1884fb-8a7b-459f-aefe-c54ac1188d71";

fn command(cpu: &str) -> CommandAdd {
    CommandAdd {
        timeout: 120,
        image_tag: "openeuler/openeuler:22.03".to_string(),
        cpu_resource: cpu.to_string(),
        memory_resource: "500Mi".to_string(),
        node_selector: Vec::new(),
        privileged: false,
        additional_labels: Vec::new(),
        additional_volume_class: None,
        additional_volume_size: None,
        additional_volume_mount_path: None,
        dry_run: false,
        secret: None,
    }
}

fn with_volume(mut cmd: CommandAdd) -> CommandAdd {
    cmd.additional_volume_class = Some("test_pvc".to_string());
    cmd.additional_volume_size = Some("10Gi".to_string());
    cmd.additional_volume_mount_path = Some("/etc/test_mount".to_string());
    cmd
}

fn label(pod_labels: &resalloc_kubernetes::labels::LabelMap, key: &str) -> Option<String> {
    pod_labels.get(key)
}

#[test]
fn test_pod_template_with_volume() {
    let mock_command = command("100m");
    let name = POD_NAME;
    let namespace = "test_ns";
    let pod = generate_pod_resource(&mock_command, namespace, name, "", false).unwrap();

    assert_eq!(pod.name, name);
    assert_eq!(pod.namespace, namespace);
    assert_eq!(pod.labels.entries.len(), 2);
    assert_eq!(label(&pod.labels, "app").as_deref(), Some("resalloc-kubernetes"));
    assert_eq!(label(&pod.labels, "has_volume").as_deref(), Some("false"));
    assert!(pod.node_selector.is_none());
    assert_eq!(pod.container.image, "openeuler/openeuler:22.03");
    assert_eq!(pod.container.image_pull_policy, "IfNotPresent");
    assert_eq!(pod.container.name, name);
    assert_eq!(pod.container.limits.cpu, "100m");
    assert_eq!(pod.container.limits.memory, "500Mi");
    assert_eq!(pod.container.requests.cpu, "100m");
    assert_eq!(pod.container.requests.memory, "500Mi");
    assert!(!pod.container.privileged);
    assert!(pod.container.volume_mounts.is_empty());
    assert!(pod.volumes.is_empty());
}

#[test]
fn test_pod_template_with_volume_and_secret() {
    let mut mock_command = with_volume(command("100m"));
    mock_command.secret = Some(VolumeMount {
        mount_path: "/home/copr/server.crt".to_string(),
        name: "copr-secrets".to_string(),
        sub_path: Some("server-crt".to_string()),
    });
    let name = POD_NAME;
    let namespace = "test_ns";
    let pvc_name = get_pvc_name(namespace, mock_command.additional_volume_class.as_ref().unwrap());
    let pod = generate_pod_resource(&mock_command, namespace, name, &pvc_name, true).unwrap();

    assert_eq!(pod.name, name);
    assert_eq!(pod.namespace, namespace);
    assert_eq!(label(&pod.labels, "app").as_deref(), Some("resalloc-kubernetes"));
    assert_eq!(label(&pod.labels, "has_volume").as_deref(), Some("true"));
    assert_eq!(pod.container.limits.cpu, "100m");
    assert_eq!(pod.container.requests.memory, "500Mi");

    let mounts = &pod.container.volume_mounts;
    assert_eq!(mounts.len(), 2);
    assert_eq!(mounts[0].mount_path, "/home/copr/server.crt");
    assert_eq!(mounts[0].name, "copr-secrets");
    assert_eq!(mounts[0].sub_path.as_deref(), Some("server-crt"));
    assert_eq!(mounts[1].mount_path, "/etc/test_mount");
    assert_eq!(mounts[1].name, "resalloc-test_ns-test_pvc");
    assert_eq!(mounts[1].sub_path, None);

    assert_eq!(pod.volumes.len(), 2);
    match &pod.volumes[0] {
        Volume::Secret { name, secret_name } => {
            assert_eq!(name, "copr-secrets");
            assert_eq!(secret_name, "copr-secrets");
        }
        other => panic!("expected the secret volume first, got {:?}", other),
    }
    match &pod.volumes[1] {
        Volume::Claim { name, claim_name } => {
            assert_eq!(name, "resalloc-test_ns-test_pvc");
            assert_eq!(claim_name, "resalloc-test_ns-test_pvc");
        }
        other => panic!("expected the claim volume second, got {:?}", other),
    }
}

#[test]
fn test_pod_template_without_volume() {
    let mock_command = with_volume(command("1"));
    let name = POD_NAME;
    let namespace = "test_ns";
    let pvc_name = get_pvc_name(namespace, mock_command.additional_volume_class.as_ref().unwrap());
    let pod = generate_pod_resource(&mock_command, namespace, name, &pvc_name, true).unwrap();
    let pvc = generate_pvc_resource(&mock_command, namespace, &pvc_name).unwrap();

    assert_eq!(pod.name, name);
    assert_eq!(pod.namespace, namespace);
    assert_eq!(label(&pod.labels, "has_volume").as_deref(), Some("true"));
    assert_eq!(pod.container.limits.cpu, "1");
    assert_eq!(pod.container.requests.cpu, "1");
    assert_eq!(pod.container.volume_mounts.len(), 1);
    assert_eq!(pod.container.volume_mounts[0].mount_path, "/etc/test_mount");
    assert_eq!(pod.container.volume_mounts[0].name, "resalloc-test_ns-test_pvc");
    assert_eq!(pod.volumes.len(), 1);
    assert!(matches!(&pod.volumes[0],
        Volume::Claim { name, claim_name }
            if name == "resalloc-test_ns-test_pvc" && claim_name == "resalloc-test_ns-test_pvc"));

    assert_eq!(pvc.name, "resalloc-test_ns-test_pvc");
    assert_eq!(pvc.namespace, "test_ns");
    assert_eq!(pvc.labels.entries.len(), 1);
    assert_eq!(label(&pvc.labels, "app").as_deref(), Some("resalloc-kubernetes"));
    assert_eq!(pvc.access_mode, "ReadWriteOnce");
    assert_eq!(pvc.storage, "10Gi");
    assert_eq!(pvc.storage_class, "test_pvc");
}

#[test]
fn claim_name_joins_namespace_and_class() {
    assert_eq!(get_pvc_name("ns1", "fast-ssd"), "resalloc-ns1-fast-ssd");
    assert_eq!(get_pvc_name("ns1", "fast-ssd"), get_pvc_name("ns1", "fast-ssd"));
}

#[test]
fn sandbox_names_carry_a_fresh_uuid() {
    let a = new_sandbox_id();
    let b = new_sandbox_id();
    assert_eq!(a.len(), 45);
    assert!(a.starts_with("resalloc-"));
    let token: Vec<char> = a["resalloc-".len()..].chars().collect();
    for (i, c) in token.iter().enumerate() {
        if i == 8 || i == 13 || i == 18 || i == 23 {
            assert_eq!(*c, '-');
        } else {
            assert!(c.is_ascii_hexdigit() && !c.is_ascii_uppercase());
        }
    }
    assert_ne!(a, b);
    assert_eq!(sandbox_name("abc"), "resalloc-abc");
}

#[test]
fn builds_are_deterministic() {
    let mut cmd = with_volume(command("100m"));
    cmd.additional_labels = vec!["team=infra".to_string()];
    cmd.node_selector = vec!["zone=a".to_string()];
    let a = build_manifests(&cmd, "test_ns", POD_NAME);
    let b = build_manifests(&cmd, "test_ns", POD_NAME);
    assert_eq!(format!("{:?}", a), format!("{:?}", b));
}

#[test]
fn partial_volume_fields_give_no_claim() {
    let full = with_volume(command("100m"));
    let mut partials = Vec::new();
    for keep in 1..7u8 {
        let mut cmd = command("100m");
        if keep & 1 != 0 {
            cmd.additional_volume_size = full.additional_volume_size.clone();
        }
        if keep & 2 != 0 {
            cmd.additional_volume_class = full.additional_volume_class.clone();
        }
        if keep & 4 != 0 {
            cmd.additional_volume_mount_path = full.additional_volume_mount_path.clone();
        }
        partials.push(cmd);
    }
    assert_eq!(partials.len(), 6);
    for cmd in &partials {
        let m = build_manifests(cmd, "test_ns", POD_NAME);
        assert!(m.claim.is_none());
        assert!(m.pod.volumes.is_empty());
        assert!(m.pod.container.volume_mounts.is_empty());
        assert_eq!(m.pod.labels.get("has_volume").as_deref(), Some("false"));
        assert_eq!(
            generate_pvc_resource(cmd, "test_ns", "c").unwrap_err(),
            ProvisionError::InvalidRequest
        );
    }
    let m = build_manifests(&full, "test_ns", POD_NAME);
    assert_eq!(m.claim.as_ref().unwrap().name, "resalloc-test_ns-test_pvc");
    assert_eq!(m.pod.volumes.len(), 1);
    assert_eq!(m.pod.container.volume_mounts.len(), 1);
}

#[test]
fn claim_without_mount_path_is_refused() {
    let cmd = command("100m");
    let r = generate_pod_resource(&cmd, "test_ns", POD_NAME, "claim", true);
    assert_eq!(r.unwrap_err(), ProvisionError::InvalidRequest);
}

#[test]
fn user_labels_override_base_labels() {
    let mut cmd = command("100m");
    cmd.additional_labels = vec![
        "app=other".to_string(),
        "team=infra".to_string(),
        "team=storage".to_string(),
        "broken".to_string(),
    ];
    let pod = generate_pod_resource(&cmd, "test_ns", POD_NAME, "", false).unwrap();
    assert_eq!(pod.labels.get("app").as_deref(), Some("other"));
    assert_eq!(pod.labels.get("has_volume").as_deref(), Some("false"));
    assert_eq!(pod.labels.get("team").as_deref(), Some("storage"));
    assert_eq!(pod.labels.get("broken"), None);
    assert_eq!(pod.labels.entries.len(), 3);
}

#[test]
fn node_selector_is_installed_once() {
    let mut cmd = command("100m");
    cmd.node_selector = vec!["disk=ssd".to_string(), "novalue".to_string()];
    let mut pod = generate_pod_resource(&cmd, "test_ns", POD_NAME, "", false).unwrap();
    let selector = pod.node_selector.as_ref().unwrap();
    assert_eq!(selector.entries.len(), 1);
    assert_eq!(selector.get("disk").as_deref(), Some("ssd"));

    let again = vec!["zone=b".to_string()];
    assert_eq!(install_node_selector(&mut pod, &again), Err(ProvisionError::InvalidState));
    assert_eq!(pod.node_selector.as_ref().unwrap().get("zone"), None);
    assert_eq!(install_node_selector(&mut pod, &Vec::new()), Ok(()));

    let mut fresh = generate_pod_resource(&command("1"), "test_ns", POD_NAME, "", false).unwrap();
    assert!(fresh.node_selector.is_none());
    assert_eq!(install_node_selector(&mut fresh, &again), Ok(()));
    assert_eq!(install_node_selector(&mut fresh, &again), Err(ProvisionError::InvalidState));
}

#[test]
fn secret_descriptor_needs_three_parts() {
    let m = parse_volume_mount("/home/copr/server.crt:copr-secrets:server-crt").unwrap();
    assert_eq!(m.mount_path, "/home/copr/server.crt");
    assert_eq!(m.name, "copr-secrets");
    assert_eq!(m.sub_path.as_deref(), Some("server-crt"));
    let e = parse_volume_mount("a::").unwrap();
    assert_eq!((e.mount_path.as_str(), e.name.as_str()), ("a", ""));
    assert_eq!(e.sub_path.as_deref(), Some(""));
    assert!(parse_volume_mount("a:b").is_err());
    assert!(parse_volume_mount("a:b:c:d").is_err());
    assert!(parse_volume_mount("").is_err());
}

#[test]
fn scenario_without_volume_or_secret() {
    let mut cmd = command("100m");
    cmd.image_tag = "x:1".to_string();
    let m = build_manifests(&cmd, "default", POD_NAME);
    assert!(m.claim.is_none());
    assert!(m.pod.volumes.is_empty());
    assert!(m.pod.container.volume_mounts.is_empty());
    assert_eq!(m.pod.container.image, "x:1");
    assert_eq!(m.pod.labels.get("has_volume").as_deref(), Some("false"));
}

#[test]
fn scenario_with_volume() {
    let cmd = with_volume(command("100m"));
    let m = build_manifests(&cmd, "test_ns", POD_NAME);
    let claim = m.claim.unwrap();
    assert_eq!(claim.name, "resalloc-test_ns-test_pvc");
    assert_eq!(claim.storage, "10Gi");
    assert_eq!(claim.storage_class, "test_pvc");
    assert_eq!(m.pod.container.volume_mounts.len(), 1);
    assert_eq!(m.pod.container.volume_mounts[0].mount_path, "/etc/test_mount");
    assert_eq!(m.pod.container.volume_mounts[0].name, "resalloc-test_ns-test_pvc");
    assert_eq!(m.pod.labels.get("has_volume").as_deref(), Some("true"));
}
