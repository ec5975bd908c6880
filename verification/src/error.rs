//! Errors of workload handling and of calls to the lifecycle service.
use vstd::prelude::*;
use vstd::string::*;

verus! {

/// A call made to the lifecycle service.
#[derive(Debug, Clone, Copy, PartialEq, Eq, Structural)]
pub enum LifecycleCall {
    StartBinary,
    StopBinary,
    GetStatus,
    StopAll,
}

/// Why handling a workload failed.
#[derive(Debug, Clone)]
pub enum WorkloadError {
    /// The workload description is not a YAML document; the parser's explanation.
    InvalidYaml(String),
    /// `metadata.name` is missing or is not a string.
    MissingServiceName,
    /// `spec.containers[0]` is missing.
    MissingContainer,
    /// `spec.containers[0].command` is missing or empty.
    MissingCommand,
    /// The lifecycle service could not be reached.
    Connect { endpoint: String, detail: String },
    /// A call failed in transport.
    Rpc { call: LifecycleCall, service: String, detail: String },
    /// The lifecycle service answered the call with `success == false`.
    Rejected { call: LifecycleCall, service: String, message: String },
}

/// The name of a call as it appears in messages.
pub open spec fn call_name(c: LifecycleCall) -> Seq<char> {
    match c {
        LifecycleCall::StartBinary => "start_binary"@,
        LifecycleCall::StopBinary => "stop_binary"@,
        LifecycleCall::GetStatus => "get_status"@,
        LifecycleCall::StopAll => "stop_all"@,
    }
}

fn call_name_str(c: LifecycleCall) -> (r: &'static str)
    ensures
        r@ == call_name(c),
{
    match c {
        LifecycleCall::StartBinary => "start_binary",
        LifecycleCall::StopBinary => "stop_binary",
        LifecycleCall::GetStatus => "get_status",
        LifecycleCall::StopAll => "stop_all",
    }
}

/// The text of an error.
pub open spec fn error_message(e: WorkloadError) -> Seq<char> {
    match e {
        WorkloadError::InvalidYaml(d) => d@,
        WorkloadError::MissingServiceName => "pod metadata.name is required"@,
        WorkloadError::MissingContainer => "pod spec must contain spec.containers[0]"@,
        WorkloadError::MissingCommand => "lifecycle runtime requires spec.containers[0].command"@,
        WorkloadError::Connect { endpoint, detail } =>
            "Failed to connect to lifecycle service at "@ + endpoint@ + ": "@ + detail@,
        WorkloadError::Rpc { call, service, detail } => if call == LifecycleCall::StopAll {
            "gRPC stop_all failed: "@ + detail@
        } else {
            "gRPC "@ + call_name(call) + " failed for service '"@ + service@ + "': "@ + detail@
        },
        WorkloadError::Rejected { call, service, message } => if call == LifecycleCall::StopAll {
            "Lifecycle stop_all failed: message='"@ + message@ + "'"@
        } else {
            "Lifecycle "@ + call_name(call) + " failed: service='"@ + service@ + "', message='"@
                + message@ + "'"@
        },
    }
}

impl WorkloadError {
    /// The text of the error.
    pub fn to_string(&self) -> (r: String)
        ensures
            r@ == error_message(*self),
    {
        match self {
            WorkloadError::InvalidYaml(d) => d.clone(),
            WorkloadError::MissingServiceName => String::from_str("pod metadata.name is required"),
            WorkloadError::MissingContainer => String::from_str(
                "pod spec must contain spec.containers[0]",
            ),
            WorkloadError::MissingCommand => String::from_str(
                "lifecycle runtime requires spec.containers[0].command",
            ),
            WorkloadError::Connect { endpoint, detail } => {
                let mut r = String::from_str("Failed to connect to lifecycle service at ");
                r.append(endpoint.as_str());
                r.append(": ");
                r.append(detail.as_str());
                r
            },
            WorkloadError::Rpc { call, service, detail } => {
                if *call == LifecycleCall::StopAll {
                    let mut r = String::from_str("gRPC stop_all failed: ");
                    r.append(detail.as_str());
                    r
                } else {
                    let mut r = String::from_str("gRPC ");
                    r.append(call_name_str(*call));
                    r.append(" failed for service '");
                    r.append(service.as_str());
                    r.append("': ");
                    r.append(detail.as_str());
                    r
                }
            },
            WorkloadError::Rejected { call, service, message } => {
                if *call == LifecycleCall::StopAll {
                    let mut r = String::from_str("Lifecycle stop_all failed: message='");
                    r.append(message.as_str());
                    r.append("'");
                    r
                } else {
                    let mut r = String::from_str("Lifecycle ");
                    r.append(call_name_str(*call));
                    r.append(" failed: service='");
                    r.append(service.as_str());
                    r.append("', message='");
                    r.append(message.as_str());
                    r.append("'");
                    r
                }
            },
        }
    }
}

} // verus!
