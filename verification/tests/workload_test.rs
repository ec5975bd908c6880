use pullpiri::error::{LifecycleCall, WorkloadError};
use pullpiri::lifecycle::{
    check_reply, connect_error, lifecycle_endpoint, restart_outcome, rpc_error, start_request,
    status_request, stop_all_request, stop_request_for_service,
};
use pullpiri::text::split_whitespace;
use pullpiri::workload::{
    extract_service_name, parse_restart_config, parse_start_spec, parse_string_list, RestartConfig,
};
use pullpiri::yaml::{YamlNumber, YamlValue};

fn s(v: &str) -> YamlValue {
    YamlValue::String(v.to_string())
}

fn n(v: u64) -> YamlValue {
    YamlValue::Number(YamlNumber::PosInt(v))
}

fn map(entries: Vec<(&str, YamlValue)>) -> YamlValue {
    YamlValue::Mapping(entries.into_iter().map(|(k, v)| (s(k), v)).collect())
}

fn seq(items: Vec<YamlValue>) -> YamlValue {
    YamlValue::Sequence(items)
}

fn pod(container: YamlValue, spec_extra: Vec<(&str, YamlValue)>) -> YamlValue {
    let mut spec = vec![("containers", seq(vec![container]))];
    spec.extend(spec_extra);
    map(vec![("metadata", map(vec![("name", s("web"))])), ("spec", map(spec))])
}

#[test]
fn start_spec_from_pod() {
    let container = map(vec![
        ("command", seq(vec![s("/usr/bin/server"), s("--port"), s("80")])),
        ("args", seq(vec![s("-v"), n(3), s("x")])),
    ]);
    let root = pod(
        container,
        vec![("restartPolicy", s("OnFailure")), ("maxRetries", n(4)), ("restartDelaySecs", n(2))],
    );
    let spec = parse_start_spec(&root).ok().unwrap();
    assert_eq!(spec.service_name, "web");
    assert_eq!(spec.binary_path, "/usr/bin/server");
    assert_eq!(spec.args, vec!["--port", "80", "-v", "x"]);
    assert_eq!(spec.restart_config.policy, 1);
    assert_eq!(spec.restart_config.max_retries, 4);
    assert_eq!(spec.restart_config.restart_delay_secs, 2);
}

#[test]
fn command_given_as_one_string_is_split() {
    let container = map(vec![("command", s("  /bin/sh\t-c \u{3000}echo  ")), ("args", s("a b"))]);
    let spec = parse_start_spec(&pod(container, vec![])).ok().unwrap();
    assert_eq!(spec.binary_path, "/bin/sh");
    assert_eq!(spec.args, vec!["-c", "echo", "a", "b"]);
    assert_eq!(spec.restart_config.policy, 0);
    assert_eq!(spec.restart_config.max_retries, 0);
}

#[test]
fn missing_name_is_reported_first() {
    let root = map(vec![("spec", map(vec![]))]);
    assert!(matches!(parse_start_spec(&root), Err(WorkloadError::MissingServiceName)));
    let root = map(vec![("metadata", map(vec![("name", n(3))]))]);
    assert!(matches!(parse_start_spec(&root), Err(WorkloadError::MissingServiceName)));
}

#[test]
fn missing_container_and_command() {
    let root = map(vec![("metadata", map(vec![("name", s("a"))])), ("spec", map(vec![("containers", seq(vec![]))]))]);
    assert!(matches!(parse_start_spec(&root), Err(WorkloadError::MissingContainer)));
    let root = map(vec![("metadata", map(vec![("name", s("a"))]))]);
    assert!(matches!(parse_start_spec(&root), Err(WorkloadError::MissingContainer)));
    let root = pod(map(vec![("command", seq(vec![]))]), vec![]);
    assert!(matches!(parse_start_spec(&root), Err(WorkloadError::MissingCommand)));
    let root = pod(map(vec![("command", s("   "))]), vec![]);
    assert!(matches!(parse_start_spec(&root), Err(WorkloadError::MissingCommand)));
}

#[test]
fn service_name_through_tags() {
    let root = YamlValue::Tagged(
        "!pod".to_string(),
        Box::new(map(vec![("metadata", map(vec![("name", YamlValue::Tagged("!s".to_string(), Box::new(s("svc"))))]))])),
    );
    assert_eq!(extract_service_name(&root).ok().unwrap(), "svc");
    assert!(matches!(extract_service_name(&s("x")), Err(WorkloadError::MissingServiceName)));
}

#[test]
fn first_matching_key_wins() {
    let root = YamlValue::Mapping(vec![
        (n(1), s("number key")),
        (s("metadata"), map(vec![("name", s("first"))])),
        (s("metadata"), map(vec![("name", s("second"))])),
    ]);
    assert_eq!(extract_service_name(&root).ok().unwrap(), "first");
}

#[test]
fn restart_config_defaults_and_case() {
    let d = parse_restart_config(None);
    assert_eq!((d.policy, d.max_retries, d.restart_delay_secs), (0, 0, 0));
    let dflt = RestartConfig::default();
    assert_eq!((dflt.policy, dflt.max_retries, dflt.restart_delay_secs), (0, 0, 0));
    for (name, code) in [
        ("Always", 2), ("ALWAYS", 2), ("OnFailure", 1), ("onfailure", 1), ("On_Failure", 1), ("Never", 0), ("bogus", 0),
    ] {
        let spec = map(vec![("restartPolicy", s(name))]);
        assert_eq!(parse_restart_config(Some(&spec)).policy, code, "{}", name);
    }
    let spec = map(vec![("restartPolicy", n(2))]);
    assert_eq!(parse_restart_config(Some(&spec)).policy, 0);
}

#[test]
fn restart_counts_wrap_and_reject_non_integers() {
    let spec = map(vec![
        ("maxRetries", n(4_294_967_296 + 5)),
        ("restartDelaySecs", YamlValue::Number(YamlNumber::NegInt(-1))),
    ]);
    let c = parse_restart_config(Some(&spec));
    assert_eq!(c.max_retries, 5);
    assert_eq!(c.restart_delay_secs, 0);
    let spec = map(vec![("maxRetries", YamlValue::Number(YamlNumber::Float)), ("restartDelaySecs", s("3"))]);
    let c = parse_restart_config(Some(&spec));
    assert_eq!((c.max_retries, c.restart_delay_secs), (0, 0));
    let spec = map(vec![("maxRetries", YamlValue::Tagged("!n".to_string(), Box::new(n(6))))]);
    assert_eq!(parse_restart_config(Some(&spec)).max_retries, 6);
}

#[test]
fn string_lists() {
    assert!(parse_string_list(None).is_empty());
    assert!(parse_string_list(Some(&n(1))).is_empty());
    assert_eq!(parse_string_list(Some(&seq(vec![s("a"), YamlValue::Null, s("b c")]))), vec!["a", "b c"]);
    // A tagged sequence is not read as a list.
    let tagged = YamlValue::Tagged("!t".to_string(), Box::new(seq(vec![s("a")])));
    assert!(parse_string_list(Some(&tagged)).is_empty());
}

#[test]
fn whitespace_split() {
    assert_eq!(split_whitespace(" a\u{a0}b\n\nc\u{2028}"), vec!["a", "b", "c"]);
    assert!(split_whitespace("").is_empty());
    assert!(split_whitespace(" \t ").is_empty());
    assert_eq!(split_whitespace("x"), vec!["x"]);
}

#[test]
fn endpoint_choice() {
    assert_eq!(lifecycle_endpoint(None), "http://127.0.0.1:50051");
    assert_eq!(lifecycle_endpoint(Some("http://h:1".to_string())), "http://h:1");
}

#[test]
fn lifecycle_requests() {
    let cfg = RestartConfig { policy: 2, max_retries: 1, restart_delay_secs: 3 };
    let r = start_request("svc", "/bin/true", vec!["a".to_string()], cfg);
    assert_eq!((r.service_name.as_str(), r.binary_path.as_str()), ("svc", "/bin/true"));
    assert_eq!(r.args, vec!["a"]);
    assert_eq!((r.restart_policy, r.max_retries, r.restart_delay_secs), (2, 1, 3));

    let stop = stop_request_for_service("svc", false);
    assert_eq!((stop.pid, stop.stop_all, stop.force, stop.timeout_secs), (0, false, false, 5));
    assert_eq!(stop.service_name, "svc");
    assert!(stop.instance_id.is_empty());
    let forced = stop_request_for_service("svc", true);
    assert_eq!(forced.timeout_secs, 0);

    let all = stop_all_request(false);
    assert!(all.stop_all && all.service_name.is_empty());
    assert_eq!(all.timeout_secs, 5);
    assert_eq!(stop_all_request(true).timeout_secs, 0);

    let st = status_request("svc");
    assert_eq!((st.pid, st.service_name.as_str(), st.instance_id.as_str()), (0, "svc", ""));
}

#[test]
fn replies_and_errors() {
    assert!(check_reply(LifecycleCall::StartBinary, "svc", true, String::new()).is_ok());
    let e = check_reply(LifecycleCall::StartBinary, "svc", false, "not found".to_string()).unwrap_err();
    assert_eq!(e.to_string(), "Lifecycle start_binary failed: service='svc', message='not found'");
    let e = check_reply(LifecycleCall::StopBinary, "svc", false, "m".to_string()).unwrap_err();
    assert_eq!(e.to_string(), "Lifecycle stop_binary failed: service='svc', message='m'");
    let e = check_reply(LifecycleCall::StopAll, "", false, "busy".to_string()).unwrap_err();
    assert_eq!(e.to_string(), "Lifecycle stop_all failed: message='busy'");
    let e = connect_error("http://h:1", "refused".to_string());
    assert_eq!(e.to_string(), "Failed to connect to lifecycle service at http://h:1: refused");
    let e = rpc_error(LifecycleCall::GetStatus, "svc", "timeout".to_string());
    assert_eq!(e.to_string(), "gRPC get_status failed for service 'svc': timeout");
    let e = rpc_error(LifecycleCall::StopAll, "", "timeout".to_string());
    assert_eq!(e.to_string(), "gRPC stop_all failed: timeout");
    assert_eq!(WorkloadError::MissingServiceName.to_string(), "pod metadata.name is required");
    assert_eq!(WorkloadError::MissingContainer.to_string(), "pod spec must contain spec.containers[0]");
    assert_eq!(
        WorkloadError::MissingCommand.to_string(),
        "lifecycle runtime requires spec.containers[0].command"
    );
    assert_eq!(WorkloadError::InvalidYaml("bad".to_string()).to_string(), "bad");
}

#[test]
fn restart_ignores_stop_failure() {
    let stop_failed = Err(WorkloadError::MissingCommand);
    assert!(restart_outcome(stop_failed, Ok(())).is_ok());
    assert!(matches!(
        restart_outcome(Ok(()), Err(WorkloadError::MissingContainer)),
        Err(WorkloadError::MissingContainer)
    ));
}
