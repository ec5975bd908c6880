//! Requests to the binary lifecycle service and the reading of its replies.
use vstd::prelude::*;
use vstd::string::*;
use crate::binary::Binary;
use crate::error::{LifecycleCall, WorkloadError};
use crate::text::{copy_string, copy_strings};
use crate::workload::{RestartConfig, binary_restart_config, restart_config_for};

verus! {

/// Where the lifecycle service listens when nothing else is configured.
pub open spec fn default_endpoint() -> Seq<char> {
    "http://127.0.0.1:50051"@
}

/// The lifecycle service endpoint: the configured one if there is one, else the default.
pub fn lifecycle_endpoint(configured: Option<String>) -> (r: String)
    ensures
        r@ == match configured {
            Some(e) => e@,
            None => default_endpoint(),
        },
{
    match configured {
        Some(e) => e,
        None => String::from_str("http://127.0.0.1:50051"),
    }
}

/// Asks the lifecycle service to start a binary.
pub struct StartRequest {
    pub service_name: String,
    pub binary_path: String,
    pub args: Vec<String>,
    pub restart_policy: i32,
    pub max_retries: u32,
    pub restart_delay_secs: u32,
}

/// Asks the lifecycle service to stop one service, or all of them.
pub struct StopRequest {
    pub pid: u32,
    pub instance_id: String,
    pub service_name: String,
    pub stop_all: bool,
    pub force: bool,
    pub timeout_secs: u32,
}

/// Asks the lifecycle service for the processes of a service.
pub struct StatusRequest {
    pub pid: u32,
    pub instance_id: String,
    pub service_name: String,
}

/// The start request for a service.
pub fn start_request(
    service_name: &str,
    binary_path: &str,
    args: Vec<String>,
    restart_config: RestartConfig,
) -> (r: StartRequest)
    ensures
        r.service_name@ == service_name@,
        r.binary_path@ == binary_path@,
        r.args@ == args@,
        r.restart_policy == restart_config.policy,
        r.max_retries == restart_config.max_retries,
        r.restart_delay_secs == restart_config.restart_delay_secs,
{
    StartRequest {
        service_name: String::from_str(service_name),
        binary_path: String::from_str(binary_path),
        args,
        restart_policy: restart_config.policy,
        max_retries: restart_config.max_retries,
        restart_delay_secs: restart_config.restart_delay_secs,
    }
}

/// The start request for a `kind: Binary` artifact: its name, path, arguments and
/// restart options.
pub fn binary_start_request(binary: &Binary) -> (r: StartRequest)
    ensures
        r.service_name@ == binary.metadata.name@,
        r.binary_path@ == binary.spec.path@,
        r.args@.map_values(|a: String| a@) == binary.spec.args@.map_values(|a: String| a@),
        r.restart_policy == binary_restart_config(binary.spec).policy,
        r.max_retries == binary.spec.max_retries,
        r.restart_delay_secs == binary.spec.restart_delay_secs,
{
    let spec = binary.get_spec();
    let service_name = binary.get_name();
    let config = restart_config_for(spec);
    start_request(service_name.as_str(), spec.path.as_str(), copy_strings(&spec.args), config)
}

/// Seconds the service is given to stop gracefully: none when forced, else 5.
pub open spec fn stop_timeout(force: bool) -> u32 {
    if force {
        0
    } else {
        5
    }
}

/// The request that stops every process of one service.
pub fn stop_request_for_service(service_name: &str, force: bool) -> (r: StopRequest)
    ensures
        r.pid == 0,
        r.instance_id@ == Seq::<char>::empty(),
        r.service_name@ == service_name@,
        !r.stop_all,
        r.force == force,
        r.timeout_secs == stop_timeout(force),
{
    StopRequest {
        pid: 0,
        instance_id: String::new(),
        service_name: String::from_str(service_name),
        stop_all: false,
        force,
        timeout_secs: if force { 0 } else { 5 },
    }
}

/// The request that stops a `kind: Binary` artifact gracefully: its service is the
/// artifact's name, it is not forced and the service gets 5 seconds.
pub fn binary_stop_request(binary: &Binary) -> (r: StopRequest)
    ensures
        r.pid == 0,
        r.instance_id@ == Seq::<char>::empty(),
        r.service_name@ == binary.metadata.name@,
        !r.stop_all,
        !r.force,
        r.timeout_secs == 5,
{
    let name = binary.get_name();
    stop_request_for_service(name.as_str(), false)
}

/// The status request for a `kind: Binary` artifact: its service is the artifact's name.
pub fn binary_status_request(binary: &Binary) -> (r: StatusRequest)
    ensures
        r.pid == 0,
        r.instance_id@ == Seq::<char>::empty(),
        r.service_name@ == binary.metadata.name@,
{
    let name = binary.get_name();
    status_request(name.as_str())
}

/// The request that stops every managed binary.
pub fn stop_all_request(force: bool) -> (r: StopRequest)
    ensures
        r.pid == 0,
        r.instance_id@ == Seq::<char>::empty(),
        r.service_name@ == Seq::<char>::empty(),
        r.stop_all,
        r.force == force,
        r.timeout_secs == stop_timeout(force),
{
    StopRequest {
        pid: 0,
        instance_id: String::new(),
        service_name: String::new(),
        stop_all: true,
        force,
        timeout_secs: if force { 0 } else { 5 },
    }
}

/// The status request for one service.
pub fn status_request(service_name: &str) -> (r: StatusRequest)
    ensures
        r.pid == 0,
        r.instance_id@ == Seq::<char>::empty(),
        r.service_name@ == service_name@,
{
    StatusRequest { pid: 0, instance_id: String::new(), service_name: String::from_str(service_name) }
}

/// The outcome of a call that the service answered with `success` and `message`:
/// success, or the service's refusal with its message.
pub fn check_reply(call: LifecycleCall, service_name: &str, success: bool, message: String) -> (r:
    Result<(), WorkloadError>)
    ensures
        success ==> r is Ok,
        !success ==> (r matches Err(WorkloadError::Rejected { call: c, service: s, message: m })
            && c == call && s@ == service_name@ && m@ == message@),
{
    if success {
        Ok(())
    } else {
        Err(WorkloadError::Rejected { call, service: String::from_str(service_name), message })
    }
}

/// The error for a service that could not be reached at `endpoint`.
pub fn connect_error(endpoint: &str, detail: String) -> (r: WorkloadError)
    ensures
        r matches WorkloadError::Connect { endpoint: e, detail: d } && e@ == endpoint@ && d@
            == detail@,
{
    WorkloadError::Connect { endpoint: String::from_str(endpoint), detail }
}

/// The error for a call that failed in transport.
pub fn rpc_error(call: LifecycleCall, service_name: &str, detail: String) -> (r: WorkloadError)
    ensures
        r matches WorkloadError::Rpc { call: c, service: s, detail: d } && c == call && s@
            == service_name@ && d@ == detail@,
{
    WorkloadError::Rpc { call, service: String::from_str(service_name), detail }
}

/// The outcome of restarting a service: stopping it first may fail (it may not be
/// running) and is ignored; the outcome is that of starting it.
pub fn restart_outcome(stopped: Result<(), WorkloadError>, started: Result<(), WorkloadError>) -> (r:
    Result<(), WorkloadError>)
    ensures
        r == started,
{
    started
}

} // verus!
