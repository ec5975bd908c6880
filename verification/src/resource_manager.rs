//! The resource manager: it turns network and volume resource requests into
//! requests for the network (Pharos) and volume (CSI) services, and their replies,
//! or their failures, into resource responses.
use vstd::prelude::*;
use vstd::string::*;

verus! {

/// A request to create a network resource.
pub struct NetworkResourceRequest {
    pub network_name: String,
    pub network_mode: String,
}

/// A request to create a volume resource.
pub struct VolumeResourceRequest {
    pub volume_name: String,
    pub capacity: String,
    pub mountpath: String,
    pub asil_level: String,
}

/// A request to delete a network or volume resource by name.
pub struct DeleteResourceRequest {
    pub resource_name: String,
}

/// The resource manager's answer.
pub struct ResourceResponse {
    pub success: bool,
    pub message: String,
}

/// Network setup request for the network service.
pub struct NetworkSetupRequest {
    pub network_name: String,
    pub network_mode: String,
}

/// Network removal request for the network service.
pub struct NetworkRemoveRequest {
    pub network_name: String,
}

/// Volume creation request for the volume service.
pub struct VolumeCreateRequest {
    pub volume_name: String,
    pub capacity: String,
    pub mountpath: String,
    pub asil_level: String,
}

/// Volume deletion request for the volume service.
pub struct VolumeDeleteRequest {
    pub volume_name: String,
}

/// What a downstream service answered: its success flag and message.
pub struct ServiceReply {
    pub success: bool,
    pub message: String,
}

/// Handle on the network service.
pub struct PharosSender {}

/// Handle on the volume service.
pub struct CsiSender {}

impl PharosSender {
    pub fn new() -> (r: Self)
        ensures
            r == (PharosSender {}),
    {
        PharosSender {}
    }
}

impl CsiSender {
    pub fn new() -> (r: Self)
        ensures
            r == (CsiSender {}),
    {
        CsiSender {}
    }
}

/// The resource operations that the resource manager serves.
#[derive(Debug, Clone, Copy, PartialEq, Eq, Structural)]
pub enum ResourceOperation {
    CreateNetwork,
    CreateVolume,
    DeleteNetwork,
    DeleteVolume,
}

/// The text that starts the message of a failed operation.
pub open spec fn failure_prefix(op: ResourceOperation) -> Seq<char> {
    match op {
        ResourceOperation::CreateNetwork => "Failed to create network resource: "@,
        ResourceOperation::CreateVolume => "Failed to create volume resource: "@,
        ResourceOperation::DeleteNetwork => "Failed to delete network resource: "@,
        ResourceOperation::DeleteVolume => "Failed to delete volume resource: "@,
    }
}

fn failure_prefix_str(op: ResourceOperation) -> (r: &'static str)
    ensures
        r@ == failure_prefix(op),
{
    match op {
        ResourceOperation::CreateNetwork => "Failed to create network resource: ",
        ResourceOperation::CreateVolume => "Failed to create volume resource: ",
        ResourceOperation::DeleteNetwork => "Failed to delete network resource: ",
        ResourceOperation::DeleteVolume => "Failed to delete volume resource: ",
    }
}

/// Serves resource requests by way of the network and volume services.
pub struct ResourceManagerGrpcServer {
    /// Network service handle.
    pub pharos_sender: PharosSender,
    /// Volume service handle.
    pub csi_sender: CsiSender,
}

impl ResourceManagerGrpcServer {
    /// Creates a server with fresh network and volume service handles.
    pub fn new() -> (r: Self)
        ensures
            r == (ResourceManagerGrpcServer { pharos_sender: PharosSender {}, csi_sender: CsiSender {} }),
    {
        ResourceManagerGrpcServer { pharos_sender: PharosSender::new(), csi_sender: CsiSender::new() }
    }

    /// The network setup request for a network resource: same name, same mode.
    pub fn network_setup_request(&self, req: NetworkResourceRequest) -> (r: NetworkSetupRequest)
        ensures
            r.network_name == req.network_name,
            r.network_mode == req.network_mode,
    {
        NetworkSetupRequest { network_name: req.network_name, network_mode: req.network_mode }
    }

    /// The volume creation request for a volume resource: every field carried over.
    pub fn volume_create_request(&self, req: VolumeResourceRequest) -> (r: VolumeCreateRequest)
        ensures
            r.volume_name == req.volume_name,
            r.capacity == req.capacity,
            r.mountpath == req.mountpath,
            r.asil_level == req.asil_level,
    {
        VolumeCreateRequest {
            volume_name: req.volume_name,
            capacity: req.capacity,
            mountpath: req.mountpath,
            asil_level: req.asil_level,
        }
    }

    /// The network removal request for a resource name.
    pub fn network_remove_request(&self, req: DeleteResourceRequest) -> (r: NetworkRemoveRequest)
        ensures
            r.network_name == req.resource_name,
    {
        NetworkRemoveRequest { network_name: req.resource_name }
    }

    /// The volume deletion request for a resource name.
    pub fn volume_delete_request(&self, req: DeleteResourceRequest) -> (r: VolumeDeleteRequest)
        ensures
            r.volume_name == req.resource_name,
    {
        VolumeDeleteRequest { volume_name: req.resource_name }
    }

    /// The response to an operation: the downstream reply passed through, or, when the
    /// downstream call failed, `success == false` and a message naming the failure.
    pub fn resource_response(&self, op: ResourceOperation, outcome: Result<ServiceReply, String>) -> (r:
        ResourceResponse)
        ensures
            match outcome {
                Ok(reply) => r.success == reply.success && r.message@ == reply.message@,
                Err(detail) => !r.success && r.message@ == failure_prefix(op) + detail@,
            },
    {
        match outcome {
            Ok(reply) => ResourceResponse { success: reply.success, message: reply.message },
            Err(detail) => {
                let mut message = String::from_str(failure_prefix_str(op));
                message.append(detail.as_str());
                ResourceResponse { success: false, message }
            },
        }
    }
}

/// The status message for a resource manager that could not be reached.
pub fn resource_manager_connect_message(detail: &str) -> (r: String)
    ensures
        r@ == "Failed to connect to ResourceManager: "@ + detail@,
{
    let mut r = String::from_str("Failed to connect to ResourceManager: ");
    r.append(detail);
    r
}

/// The message of a call made while no connection to the resource manager exists.
pub open spec fn not_connected_message() -> Seq<char> {
    "ResourceManager client not connected"@
}

/// The connection step of the resource manager client: a connected client stays
/// connected and goes ahead; an unconnected one takes the outcome of its connection
/// attempt (`Some(Ok)`: now connected; `Some(Err(d))`: still unconnected, and the call
/// fails naming `d`); an unconnected client that made no attempt cannot make the call.
/// Returns whether the client is connected afterwards and whether the call may go ahead.
pub fn connection_step(connected: bool, attempt: Option<Result<(), String>>) -> (r: (bool, Result<(), String>))
    ensures
        connected ==> r.0 && r.1 is Ok,
        !connected ==> match attempt {
            Some(Ok(())) => r.0 && r.1 is Ok,
            Some(Err(d)) => !r.0 && (r.1 matches Err(m) && m@ == "Failed to connect to ResourceManager: "@ + d@),
            None => !r.0 && (r.1 matches Err(m) && m@ == not_connected_message()),
        },
{
    if connected {
        (true, Ok(()))
    } else {
        match attempt {
            Some(Ok(())) => (true, Ok(())),
            Some(Err(d)) => (false, Err(resource_manager_connect_message(d.as_str()))),
            None => (false, Err(String::from_str("ResourceManager client not connected"))),
        }
    }
}

} // verus!
