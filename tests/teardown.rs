use resalloc_kubernetes::error::ProvisionError;
use resalloc_kubernetes::labels::LabelMap;
use resalloc_kubernetes::teardown::{plan_delete, pod_ip_selector, DeleteStep, PodSnapshot};

fn pod(name: &str, labels: &[(&str, &str)]) -> PodSnapshot {
    let mut m = LabelMap::new();
    for (k, v) in labels {
        m.insert(k.to_string(), v.to_string());
    }
    PodSnapshot { name: name.to_string(), labels: m, address: Some("10.0.0.7".to_string()) }
}

#[test]
fn only_owned_pods_are_deleted() {
    let pods = vec![
        pod("foreign", &[("app", "something-else"), ("has_volume", "true")]),
        pod("resalloc-1", &[("app", "resalloc-kubernetes"), ("has_volume", "false")]),
    ];
    let steps = plan_delete("10.0.0.7", &pods).unwrap();
    assert_eq!(steps, vec![DeleteStep::DeletePod { name: "resalloc-1".to_string() }]);
}

#[test]
fn unlabelled_pod_is_skipped() {
    let pods = vec![pod("bare", &[])];
    assert_eq!(plan_delete("10.0.0.7", &pods).unwrap(), Vec::new());
}

#[test]
fn owned_pod_with_volume_deletes_its_claim_after_it() {
    let pods = vec![
        pod("resalloc-2", &[("app", "resalloc-kubernetes"), ("has_volume", "true")]),
        pod("resalloc-3", &[("app", "resalloc-kubernetes")]),
    ];
    let steps = plan_delete("10.0.0.7", &pods).unwrap();
    assert_eq!(
        steps,
        vec![
            DeleteStep::DeletePod { name: "resalloc-2".to_string() },
            DeleteStep::DeleteClaim { name: "resalloc-2".to_string() },
            DeleteStep::DeletePod { name: "resalloc-3".to_string() },
        ]
    );
}

#[test]
fn no_match_is_not_found() {
    assert_eq!(
        plan_delete("10.0.0.9", &Vec::new()),
        Err(ProvisionError::NotFound { address: "10.0.0.9".to_string() })
    );
}

#[test]
fn listing_selects_by_pod_address() {
    assert_eq!(pod_ip_selector("10.0.0.7"), "status.podIP=10.0.0.7");
}
