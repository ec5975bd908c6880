use pullpiri::resource_manager::{
    resource_manager_connect_message, DeleteResourceRequest, NetworkResourceRequest,
    ResourceManagerGrpcServer, ResourceOperation, ServiceReply, VolumeResourceRequest,
};

#[test]
fn requests_are_carried_over() {
    let server = ResourceManagerGrpcServer::new();
    let net = server.network_setup_request(NetworkResourceRequest {
        network_name: "n1".to_string(),
        network_mode: "bridge".to_string(),
    });
    assert_eq!((net.network_name.as_str(), net.network_mode.as_str()), ("n1", "bridge"));
    let vol = server.volume_create_request(VolumeResourceRequest {
        volume_name: "v".to_string(),
        capacity: "1Gi".to_string(),
        mountpath: "/data".to_string(),
        asil_level: "B".to_string(),
    });
    assert_eq!(
        (vol.volume_name.as_str(), vol.capacity.as_str(), vol.mountpath.as_str(), vol.asil_level.as_str()),
        ("v", "1Gi", "/data", "B")
    );
    let rm = server.network_remove_request(DeleteResourceRequest { resource_name: "n1".to_string() });
    assert_eq!(rm.network_name, "n1");
    let del = server.volume_delete_request(DeleteResourceRequest { resource_name: "v".to_string() });
    assert_eq!(del.volume_name, "v");
}

#[test]
fn replies_pass_through() {
    let server = ResourceManagerGrpcServer::new();
    let r = server.resource_response(
        ResourceOperation::CreateNetwork,
        Ok(ServiceReply { success: false, message: "exists".to_string() }),
    );
    assert!(!r.success);
    assert_eq!(r.message, "exists");
    let r = server.resource_response(
        ResourceOperation::DeleteVolume,
        Ok(ServiceReply { success: true, message: "ok".to_string() }),
    );
    assert!(r.success);
    assert_eq!(r.message, "ok");
}

#[test]
fn failures_are_named() {
    let server = ResourceManagerGrpcServer::new();
    let cases = [
        (ResourceOperation::CreateNetwork, "Failed to create network resource: down"),
        (ResourceOperation::CreateVolume, "Failed to create volume resource: down"),
        (ResourceOperation::DeleteNetwork, "Failed to delete network resource: down"),
        (ResourceOperation::DeleteVolume, "Failed to delete volume resource: down"),
    ];
    for (op, text) in cases {
        let r = server.resource_response(op, Err("down".to_string()));
        assert!(!r.success);
        assert_eq!(r.message, text);
    }
    assert_eq!(resource_manager_connect_message("e"), "Failed to connect to ResourceManager: e");
}
