use pullpiri::binary::{Binary, BinarySpec, Metadata, RestartPolicy};
use pullpiri::lifecycle::{binary_start_request, binary_status_request, binary_stop_request};
use pullpiri::workload::restart_config_for;

fn create_test_binary(name: &str) -> Binary {
    Binary {
        metadata: Metadata { name: name.to_string() },
        spec: BinarySpec {
            path: "/bin/sleep".to_string(),
            args: vec!["30".to_string()],
            restart_policy: RestartPolicy::OnFailure,
            max_retries: 3,
            restart_delay_secs: 1,
            node: Some("test-node".to_string()),
        },
    }
}

#[test]
fn test_binary_get_name() {
    let binary = create_test_binary("test-binary");
    assert_eq!(binary.get_name(), "test-binary");
}

#[test]
fn test_binary_spec_fields() {
    let binary = create_test_binary("spec-test");
    let spec = binary.get_spec();
    assert_eq!(spec.path, "/bin/sleep");
    assert_eq!(spec.args, vec!["30"]);
    assert_eq!(spec.restart_policy, RestartPolicy::OnFailure);
    assert_eq!(spec.max_retries, 3);
    assert_eq!(spec.restart_delay_secs, 1);
}

#[test]
fn test_restart_policy_to_proto() {
    assert_eq!(RestartPolicy::Never.to_proto_value(), 0);
    assert_eq!(RestartPolicy::OnFailure.to_proto_value(), 1);
    assert_eq!(RestartPolicy::Always.to_proto_value(), 2);
}

#[test]
fn test_binary_get_node() {
    let binary = create_test_binary("node-test");
    assert_eq!(binary.get_node(), Some("test-node"));
}

#[test]
fn binary_without_node_has_none() {
    let mut binary = create_test_binary("no-node");
    binary.spec.node = None;
    assert_eq!(binary.get_node(), None);
}

#[test]
fn restart_policy_defaults_to_never() {
    assert_eq!(RestartPolicy::default(), RestartPolicy::Never);
}

#[test]
fn restart_config_follows_binary_spec() {
    let mut binary = create_test_binary("cfg");
    binary.spec.restart_policy = RestartPolicy::Always;
    binary.spec.max_retries = 7;
    binary.spec.restart_delay_secs = 9;
    let config = restart_config_for(binary.get_spec());
    assert_eq!(config.policy, 2);
    assert_eq!(config.max_retries, 7);
    assert_eq!(config.restart_delay_secs, 9);
}

#[test]
fn binary_start_request_carries_the_artifact() {
    let binary = create_test_binary("svc");
    let req = binary_start_request(&binary);
    assert_eq!(req.service_name, "svc");
    assert_eq!(req.binary_path, "/bin/sleep");
    assert_eq!(req.args, vec!["30".to_string()]);
    assert_eq!(req.restart_policy, 1);
    assert_eq!(req.max_retries, 3);
    assert_eq!(req.restart_delay_secs, 1);
}

#[test]
fn binary_stop_and_status_requests() {
    let binary = create_test_binary("svc-stop");
    let stop = binary_stop_request(&binary);
    assert_eq!(stop.service_name, "svc-stop");
    assert_eq!((stop.pid, stop.stop_all, stop.force, stop.timeout_secs), (0, false, false, 5));
    assert!(stop.instance_id.is_empty());
    let status = binary_status_request(&binary);
    assert_eq!((status.pid, status.service_name.as_str(), status.instance_id.as_str()), (0, "svc-stop", ""));
}
