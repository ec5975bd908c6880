//! Reading workload descriptions: restart configuration, service names and
//! the start specification of a pod's first container.
use vstd::prelude::*;
use crate::binary::{BinarySpec, proto_value};
use crate::error::WorkloadError;
use crate::text::{ascii_lower, ascii_lower_eq, copy_string, split_whitespace, words};
use crate::yaml::{YamlValue, opt_value, parse_yaml, yaml_document, yaml_get, yaml_seq, yaml_str, yaml_u64};

verus! {

/// Restart options handed to the lifecycle service.
#[derive(Debug, Clone, Copy)]
pub struct RestartConfig {
    /// 0 = Never, 1 = OnFailure, 2 = Always.
    pub policy: i32,
    pub max_retries: u32,
    pub restart_delay_secs: u32,
}

impl Default for RestartConfig {
    /// Policy `Never`, no retries, no delay.
    fn default() -> (r: Self)
        ensures
            r == (RestartConfig { policy: 0, max_retries: 0, restart_delay_secs: 0 }),
    {
        RestartConfig { policy: 0, max_retries: 0, restart_delay_secs: 0 }
    }
}

/// The restart options that a binary specification asks for.
pub open spec fn binary_restart_config(spec: BinarySpec) -> RestartConfig {
    RestartConfig {
        policy: proto_value(spec.restart_policy),
        max_retries: spec.max_retries,
        restart_delay_secs: spec.restart_delay_secs,
    }
}

/// The restart options of a binary specification.
pub fn restart_config_for(spec: &BinarySpec) -> (r: RestartConfig)
    ensures
        r == binary_restart_config(*spec),
{
    RestartConfig {
        policy: spec.restart_policy.to_proto_value(),
        max_retries: spec.max_retries,
        restart_delay_secs: spec.restart_delay_secs,
    }
}

// ---------------------------------------------------------------------------
// String lists
// ---------------------------------------------------------------------------

/// The strings among `items`, in order (other items are skipped).
pub open spec fn strings_in(items: Seq<YamlValue>) -> Seq<Seq<char>>
    decreases items.len(),
{
    if items.len() == 0 {
        seq![]
    } else {
        let w = strings_in(items.drop_last());
        match yaml_str(items.last()) {
            Some(s) => w.push(s),
            None => w,
        }
    }
}

/// A list of strings given either as a sequence (its string items) or as one
/// string (its whitespace-separated words); anything else gives no strings.
pub open spec fn string_list(value: Option<YamlValue>) -> Seq<Seq<char>> {
    match value {
        Some(YamlValue::Sequence(items)) => strings_in(items@),
        Some(YamlValue::String(s)) => words(s@),
        _ => seq![],
    }
}

/// Reads a list of strings: a sequence gives its string items, a string gives
/// its whitespace-separated words, anything else gives nothing.
pub fn parse_string_list(value: Option<&YamlValue>) -> (r: Vec<String>)
    ensures
        r@.map_values(|s: String| s@) == string_list(opt_value(value)),
{
    match value {
        Some(YamlValue::Sequence(items)) => {
            let mut r: Vec<String> = Vec::new();
            let mut i: usize = 0;
            while i < items.len()
                invariant
                    i <= items.len(),
                    r@.map_values(|s: String| s@) == strings_in(items@.take(i as int)),
                decreases items.len() - i,
            {
                let ghost before = r@.map_values(|s: String| s@);
                assert(items@.take(i + 1).drop_last() =~= items@.take(i as int));
                assert(items@.take(i + 1).last() == items@[i as int]);
                match items[i].as_str() {
                    Some(s) => {
                        let owned = String::from_str(s);
                        r.push(owned);
                        assert(r@.map_values(|s: String| s@) =~= before.push(owned@));
                    },
                    None => {},
                }
                i = i + 1;
            }
            assert(items@.take(items.len() as int) =~= items@);
            r
        },
        Some(YamlValue::String(s)) => split_whitespace(s.as_str()),
        _ => Vec::new(),
    }
}

// ---------------------------------------------------------------------------
// Restart configuration
// ---------------------------------------------------------------------------

/// The policy number that a policy name stands for, ignoring ASCII case:
/// `always` 2, `onfailure` or `on_failure` 1, anything else 0.
pub open spec fn policy_code(name: Seq<char>) -> i32 {
    if ascii_lower(name) == "always"@ {
        2
    } else if ascii_lower(name) == "onfailure"@ || ascii_lower(name) == "on_failure"@ {
        1
    } else {
        0
    }
}

/// The policy number that a `restartPolicy` entry gives (0 when it is missing or not a string).
pub open spec fn policy_of(entry: Option<YamlValue>) -> i32 {
    match entry {
        Some(v) => match yaml_str(v) {
            Some(name) => policy_code(name),
            None => 0,
        },
        None => 0,
    }
}

/// The count that a numeric entry gives: its value taken modulo 2^32 when it is
/// a non-negative integer, 0 otherwise.
pub open spec fn count_of(entry: Option<YamlValue>) -> u32 {
    match entry {
        Some(v) => match yaml_u64(v) {
            Some(n) => (n % 0x1_0000_0000) as u32,
            None => 0,
        },
        None => 0,
    }
}

/// The restart options that a pod `spec` node gives.
pub open spec fn restart_config_of(spec_node: Option<YamlValue>) -> RestartConfig {
    match spec_node {
        None => RestartConfig { policy: 0, max_retries: 0, restart_delay_secs: 0 },
        Some(spec) => RestartConfig {
            policy: policy_of(yaml_get(spec, "restartPolicy"@)),
            max_retries: count_of(yaml_get(spec, "maxRetries"@)),
            restart_delay_secs: count_of(yaml_get(spec, "restartDelaySecs"@)),
        },
    }
}

fn policy_number(name: &str) -> (r: i32)
    ensures
        r == policy_code(name@),
{
    if ascii_lower_eq(name, "always") {
        2
    } else if ascii_lower_eq(name, "onfailure") || ascii_lower_eq(name, "on_failure") {
        1
    } else {
        0
    }
}

fn count_number(entry: Option<&YamlValue>) -> (r: u32)
    ensures
        r == count_of(opt_value(entry)),
{
    match entry {
        Some(v) => match v.as_u64() {
            Some(n) => {
                assert((n as u32) == ((n % 0x1_0000_0000) as u32)) by (bit_vector);
                n as u32
            },
            None => 0,
        },
        None => 0,
    }
}

/// Reads `spec.restartPolicy` (`Never | OnFailure | Always`, any ASCII case),
/// `spec.maxRetries` and `spec.restartDelaySecs` (default 0); no `spec` gives the defaults.
pub fn parse_restart_config(spec_node: Option<&YamlValue>) -> (r: RestartConfig)
    ensures
        r == restart_config_of(opt_value(spec_node)),
{
    match spec_node {
        None => RestartConfig::default(),
        Some(spec) => {
            let policy = match spec.get("restartPolicy") {
                Some(v) => match v.as_str() {
                    Some(name) => policy_number(name),
                    None => 0,
                },
                None => 0,
            };
            let max_retries = count_number(spec.get("maxRetries"));
            let restart_delay_secs = count_number(spec.get("restartDelaySecs"));
            RestartConfig { policy, max_retries, restart_delay_secs }
        },
    }
}

} // verus!

verus! {

// ---------------------------------------------------------------------------
// Service name and start specification
// ---------------------------------------------------------------------------

/// `metadata.name` of a pod description, when it is a string.
pub open spec fn service_name_of(root: YamlValue) -> Option<Seq<char>> {
    match yaml_get(root, "metadata"@) {
        Some(meta) => match yaml_get(meta, "name"@) {
            Some(name) => yaml_str(name),
            None => None,
        },
        None => None,
    }
}

/// Reads `metadata.name`, the lifecycle service name of a pod description.
pub fn extract_service_name(root: &YamlValue) -> (r: Result<String, WorkloadError>)
    ensures
        match r {
            Ok(name) => service_name_of(*root) == Some(name@),
            Err(e) => service_name_of(*root) is None && e == WorkloadError::MissingServiceName,
        },
{
    match root.get("metadata") {
        Some(meta) => match meta.get("name") {
            Some(name) => match name.as_str() {
                Some(s) => Ok(String::from_str(s)),
                None => Err(WorkloadError::MissingServiceName),
            },
            None => Err(WorkloadError::MissingServiceName),
        },
        None => Err(WorkloadError::MissingServiceName),
    }
}

/// What it takes to start a pod's first container as a lifecycle-managed binary.
pub struct StartSpec {
    pub service_name: String,
    pub binary_path: String,
    pub args: Vec<String>,
    pub restart_config: RestartConfig,
}

/// A start specification as plain values.
pub struct StartSpecView {
    pub service_name: Seq<char>,
    pub binary_path: Seq<char>,
    pub args: Seq<Seq<char>>,
    pub restart_config: RestartConfig,
}

impl View for StartSpec {
    type V = StartSpecView;

    open spec fn view(&self) -> StartSpecView {
        StartSpecView {
            service_name: self.service_name@,
            binary_path: self.binary_path@,
            args: self.args@.map_values(|a: String| a@),
            restart_config: self.restart_config,
        }
    }
}

/// `spec.containers[0]` of a pod description.
pub open spec fn first_container_of(root: YamlValue) -> Option<YamlValue> {
    match yaml_get(root, "spec"@) {
        Some(spec) => match yaml_get(spec, "containers"@) {
            Some(containers) => match yaml_seq(containers) {
                Some(items) => if items.len() > 0 {
                    Some(items[0])
                } else {
                    None
                },
                None => None,
            },
            None => None,
        },
        None => None,
    }
}

/// The start specification of a pod description: the service is `metadata.name`;
/// the binary is the first word of the first container's `command`; its arguments
/// are the rest of `command` followed by the container's `args`; the restart
/// options come from `spec`.
pub open spec fn start_spec_of(root: YamlValue) -> Result<StartSpecView, WorkloadError> {
    match service_name_of(root) {
        None => Err(WorkloadError::MissingServiceName),
        Some(name) => match first_container_of(root) {
            None => Err(WorkloadError::MissingContainer),
            Some(container) => {
                let command = string_list(yaml_get(container, "command"@));
                if command.len() == 0 {
                    Err(WorkloadError::MissingCommand)
                } else {
                    Ok(
                        StartSpecView {
                            service_name: name,
                            binary_path: command[0],
                            args: command.drop_first() + string_list(yaml_get(container, "args"@)),
                            restart_config: restart_config_of(yaml_get(root, "spec"@)),
                        },
                    )
                }
            },
        },
    }
}

fn first_container(root: &YamlValue) -> (r: Option<&YamlValue>)
    ensures
        opt_value(r) == first_container_of(*root),
{
    match root.get("spec") {
        Some(spec) => match spec.get("containers") {
            Some(containers) => match containers.as_sequence() {
                Some(items) => if items.len() > 0 {
                    Some(&items[0])
                } else {
                    None
                },
                None => None,
            },
            None => None,
        },
        None => None,
    }
}

/// Reads the start specification of a pod description (see `start_spec_of`).
pub fn parse_start_spec(root: &YamlValue) -> (r: Result<StartSpec, WorkloadError>)
    ensures
        match r {
            Ok(s) => start_spec_of(*root) == Ok::<StartSpecView, WorkloadError>(s@),
            Err(e) => start_spec_of(*root) == Err::<StartSpecView, WorkloadError>(e),
        },
{
    let service_name = match extract_service_name(root) {
        Ok(name) => name,
        Err(e) => return Err(e),
    };
    let container = match first_container(root) {
        Some(c) => c,
        None => return Err(WorkloadError::MissingContainer),
    };
    let command = parse_string_list(container.get("command"));
    if command.len() == 0 {
        return Err(WorkloadError::MissingCommand);
    }
    let ghost cmd = command@.map_values(|a: String| a@);
    let mut args: Vec<String> = Vec::new();
    let mut i: usize = 1;
    while i < command.len()
        invariant
            1 <= i <= command.len(),
            cmd == command@.map_values(|a: String| a@),
            args@.map_values(|a: String| a@) == cmd.subrange(1, i as int),
        decreases command.len() - i,
    {
        let ghost before = args@.map_values(|a: String| a@);
        let a = copy_string(&command[i]);
        args.push(a);
        assert(args@.map_values(|a: String| a@) =~= before.push(a@));
        assert(cmd.subrange(1, i + 1) =~= cmd.subrange(1, i as int).push(cmd[i as int]));
        i = i + 1;
    }
    let mut pod_args = parse_string_list(container.get("args"));
    let ghost front = args@.map_values(|a: String| a@);
    let ghost back = pod_args@.map_values(|a: String| a@);
    args.append(&mut pod_args);
    assert(args@.map_values(|a: String| a@) =~= front + back);
    assert(cmd.subrange(1, cmd.len() as int) =~= cmd.drop_first());
    let restart_config = parse_restart_config(root.get("spec"));
    let binary_path = copy_string(&command[0]);
    let r = StartSpec { service_name, binary_path, args, restart_config };
    assert(r@.args =~= cmd.drop_first() + back);
    Ok(r)
}

} // verus!

verus! {

// ---------------------------------------------------------------------------
// From YAML text
// ---------------------------------------------------------------------------

/// The service name of a pod description given as YAML text: a text that is not YAML
/// gives `InvalidYaml` with the parser's explanation, else `metadata.name` is read.
pub fn service_name_from_text(pod_yaml: &str) -> (r: Result<String, WorkloadError>)
    ensures
        match yaml_document(pod_yaml@) {
            Err(d) => r matches Err(WorkloadError::InvalidYaml(m)) && m@ == d,
            Ok(root) => match r {
                Ok(name) => service_name_of(root) == Some(name@),
                Err(e) => service_name_of(root) is None && e == WorkloadError::MissingServiceName,
            },
        },
{
    match parse_yaml(pod_yaml) {
        Ok(root) => extract_service_name(&root),
        Err(d) => Err(WorkloadError::InvalidYaml(d)),
    }
}

/// The start specification of a pod description given as YAML text: a text that is not
/// YAML gives `InvalidYaml` with the parser's explanation (before any other check), else
/// the document is read as `parse_start_spec` reads it.
pub fn start_spec_from_text(pod_yaml: &str) -> (r: Result<StartSpec, WorkloadError>)
    ensures
        match yaml_document(pod_yaml@) {
            Err(d) => r matches Err(WorkloadError::InvalidYaml(m)) && m@ == d,
            Ok(root) => match r {
                Ok(s) => start_spec_of(root) == Ok::<StartSpecView, WorkloadError>(s@),
                Err(e) => start_spec_of(root) == Err::<StartSpecView, WorkloadError>(e),
            },
        },
{
    match parse_yaml(pod_yaml) {
        Ok(root) => parse_start_spec(&root),
        Err(d) => Err(WorkloadError::InvalidYaml(d)),
    }
}

} // verus!
