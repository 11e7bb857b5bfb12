use core_agent::block_device::{BlockDevice, BlockDeviceFilesystem, BlockDevicePartition};
use core_agent::errors::{ReplyError, ReplyErrorKind, ResourceKind};
use core_agent::message_bus::{
    CreateNexus, DestroyNexus, DestroyReplica, Filter, NexusShareProtocol, Protocol, Replica,
    ReplicaShareProtocol, ReplicaState, ShareNexus, ShareReplica, UnshareNexus, UnshareReplica,
};
use core_agent::nexus::{NexusSpec, NexusSpecKey};
use core_agent::replica::ReplicaSpecKey;
use core_agent::rest::{destroy_nexus_request, nexus_share_request, volume_share_request, NexusShareRequest};

fn replica() -> Replica {
    Replica {
        node: "n1".to_string(),
        uuid: "r1".to_string(),
        pool: "p1".to_string(),
        thin: true,
        size: 1048576,
        share: Protocol::Off,
        uri: "bdev:///r1".to_string(),
        state: ReplicaState::Online,
    }
}

#[test]
fn replica_request_conversions() {
    let share = ShareReplica::from(&replica());
    assert_eq!(share.node, "n1");
    assert_eq!(share.pool, "p1");
    assert_eq!(share.uuid, "r1");
    assert_eq!(share.protocol, ReplicaShareProtocol::Nvmf);
    let unshare = UnshareReplica::from(share.clone());
    assert_eq!(unshare, UnshareReplica::from(&replica()));
    assert_eq!(ShareReplica::from(unshare), share);
    let destroy = DestroyReplica::from(replica());
    assert_eq!(destroy.node, "n1");
    assert_eq!(destroy.uuid, "r1");
    assert_eq!(Protocol::from(ReplicaShareProtocol::Nvmf), Protocol::Nvmf);
    assert!(ReplicaShareProtocol::Nvmf.eq_protocol(&Protocol::Nvmf));
    assert!(!ReplicaShareProtocol::Nvmf.eq_protocol(&Protocol::Off));
    assert_eq!(ReplicaShareProtocol::from_i32(1), ReplicaShareProtocol::Nvmf);
    assert_eq!(Protocol::from(NexusShareProtocol::Iscsi), Protocol::Iscsi);
}

#[test]
fn keys_from_ids() {
    assert_eq!(ReplicaSpecKey::from(&"r1".to_string()).key(), "ReplicaSpec/r1");
    assert_eq!(NexusSpecKey::from(&"x1".to_string()).key(), "NexusSpec/x1");
}

#[test]
fn destroy_nexus_from_spec() {
    let spec = NexusSpec::from(&CreateNexus {
        node: "n1".to_string(),
        uuid: "x1".to_string(),
        size: 10,
        children: vec![],
        managed: true,
        owner: None,
    });
    assert_eq!(
        DestroyNexus::from(spec),
        DestroyNexus { node: "n1".to_string(), uuid: "x1".to_string() }
    );
}

#[test]
fn share_protocol_off_unshares() {
    assert_eq!(
        nexus_share_request("n1".to_string(), "x1".to_string(), Protocol::Off),
        NexusShareRequest::Unshare(UnshareNexus { node: "n1".to_string(), uuid: "x1".to_string() })
    );
    assert_eq!(
        nexus_share_request("n1".to_string(), "x1".to_string(), Protocol::Nvmf),
        NexusShareRequest::Share(ShareNexus {
            node: "n1".to_string(),
            uuid: "x1".to_string(),
            key: None,
            protocol: NexusShareProtocol::Nvmf,
        })
    );
}

#[test]
fn destroy_nexus_filters() {
    let lookup_error = ReplyError {
        kind: ReplyErrorKind::NotFound,
        resource: ResourceKind::Nexus,
        source: "get".to_string(),
        extra: "x1".to_string(),
    };
    assert_eq!(
        destroy_nexus_request(Filter::NodeNexus("n1".to_string(), "x1".to_string()), Err(lookup_error.clone())),
        Ok(DestroyNexus { node: "n1".to_string(), uuid: "x1".to_string() })
    );
    assert_eq!(
        destroy_nexus_request(Filter::Nexus("x1".to_string()), Ok("n2".to_string())),
        Ok(DestroyNexus { node: "n2".to_string(), uuid: "x1".to_string() })
    );
    assert_eq!(
        destroy_nexus_request(Filter::Nexus("x1".to_string()), Err(lookup_error.clone())),
        Err(lookup_error)
    );
    let refused = destroy_nexus_request(Filter::All, Ok("n1".to_string())).unwrap_err();
    assert_eq!(refused.kind, ReplyErrorKind::Internal);
    assert_eq!(refused.resource, ResourceKind::Nexus);
    assert_eq!(refused.source, "destroy_nexus");
    assert_eq!(refused.extra, "invalid filter for resource");
}

#[test]
fn volume_share_without_nexus_is_not_found() {
    let r = volume_share_request(&"v1".to_string(), None, Protocol::Nvmf).unwrap_err();
    assert_eq!(r.kind, ReplyErrorKind::NotFound);
    assert_eq!(r.extra, "No nexuses found for volume v1");
    let r = volume_share_request(&"v1".to_string(), Some(("n1".to_string(), "x1".to_string())), Protocol::Off)
        .unwrap();
    assert_eq!(
        r,
        NexusShareRequest::Unshare(UnshareNexus { node: "n1".to_string(), uuid: "x1".to_string() })
    );
}

#[test]
fn block_device_constructors() {
    let d = BlockDevice::new(
        true,
        vec!["/dev/disk/by-id/x".to_string()],
        8,
        1,
        "sda1".to_string(),
        "/devices/sda1".to_string(),
        "partition".to_string(),
        BlockDeviceFilesystem::default(),
        "model".to_string(),
        BlockDevicePartition::default(),
        2048,
    );
    assert_eq!(d.devname, "sda1");
    assert_eq!(d.size, 2048);
    let e = BlockDevice::new_all(
        true,
        vec!["/dev/disk/by-id/x".to_string()],
        8,
        1,
        "sda1".to_string(),
        "/devices/sda1".to_string(),
        "partition".to_string(),
        BlockDeviceFilesystem::default(),
        "model".to_string(),
        BlockDevicePartition::default(),
        2048,
    );
    assert_eq!(d, e);
}
