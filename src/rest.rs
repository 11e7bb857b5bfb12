//! Decisions of the REST handlers: which bus request a REST call turns into.
//! The handlers themselves send the request and shape the reply.

use vstd::prelude::*;
use vstd::string::StringExecFns;
use crate::errors::{ReplyError, ReplyErrorKind, ResourceKind};
use crate::message_bus::{
    DestroyNexus, Filter, NexusId, NexusShareProtocol, NodeId, Protocol, ShareNexus, UnshareNexus,
    VolumeId,
};

verus! {

/// The bus request that a share call on a nexus turns into.
#[derive(Clone, Debug, PartialEq)]
pub enum NexusShareRequest {
    Share(ShareNexus),
    Unshare(UnshareNexus),
}

/// The request for a share call on a nexus: no protocol unshares it, any
/// other protocol shares it over that protocol.
pub fn nexus_share_request(node: NodeId, uuid: NexusId, protocol: Protocol) -> (r: NexusShareRequest)
    ensures
        protocol == Protocol::Off ==> r == NexusShareRequest::Unshare(UnshareNexus { node, uuid }),
        protocol == Protocol::Nvmf ==> r == NexusShareRequest::Share(
            ShareNexus { node, uuid, key: None, protocol: NexusShareProtocol::Nvmf },
        ),
        protocol == Protocol::Iscsi ==> r == NexusShareRequest::Share(
            ShareNexus { node, uuid, key: None, protocol: NexusShareProtocol::Iscsi },
        ),
{
    match protocol {
        // Unshare the nexus if no protocol is selected.
        Protocol::Off => NexusShareRequest::Unshare(UnshareNexus { node, uuid }),
        Protocol::Nvmf => NexusShareRequest::Share(
            ShareNexus { node, uuid, key: None, protocol: NexusShareProtocol::Nvmf },
        ),
        Protocol::Iscsi => NexusShareRequest::Share(
            ShareNexus { node, uuid, key: None, protocol: NexusShareProtocol::Iscsi },
        ),
    }
}

/// Whether a filter names a nexus in a way that a destroy can use.
pub open spec fn destroy_filter_ok(filter: Filter) -> bool {
    filter is NodeNexus || filter is Nexus
}

/// The destroy request for a nexus named by a filter. A filter with the node
/// gives the request directly; a filter with the nexus alone takes the node
/// from `lookup`, the outcome of looking the nexus up, whose error is returned
/// as is; any other filter is refused as an internal error.
pub fn destroy_nexus_request(filter: Filter, lookup: Result<NodeId, ReplyError>) -> (r: Result<
    DestroyNexus,
    ReplyError,
>)
    ensures
        filter matches Filter::NodeNexus(node, uuid) ==> r == Ok::<DestroyNexus, ReplyError>(
            DestroyNexus { node, uuid },
        ),
        filter matches Filter::Nexus(uuid) ==> (match lookup {
            Ok(node) => r == Ok::<DestroyNexus, ReplyError>(DestroyNexus { node, uuid }),
            Err(e) => r == Err::<DestroyNexus, ReplyError>(e),
        }),
        !destroy_filter_ok(filter) ==> (r matches Err(e) && e.kind == ReplyErrorKind::Internal
            && e.resource == ResourceKind::Nexus && e.source@ == "destroy_nexus"@ && e.extra@
            == "invalid filter for resource"@),
{
    match filter {
        Filter::NodeNexus(node, uuid) => Ok(DestroyNexus { node, uuid }),
        Filter::Nexus(uuid) => match lookup {
            Ok(node) => Ok(DestroyNexus { node, uuid }),
            Err(error) => Err(error),
        },
        _ => Err(
            ReplyError {
                kind: ReplyErrorKind::Internal,
                resource: ResourceKind::Nexus,
                source: String::from_str("destroy_nexus"),
                extra: String::from_str("invalid filter for resource"),
            },
        ),
    }
}

/// The request for a share call on a volume: it acts on the volume's first
/// nexus, given as its node and uuid; a volume without nexuses gives
/// `NotFound`.
pub fn volume_share_request(
    volume_id: &VolumeId,
    first_nexus: Option<(NodeId, NexusId)>,
    protocol: Protocol,
) -> (r: Result<NexusShareRequest, ReplyError>)
    ensures
        first_nexus matches Some((node, uuid)) ==> (r matches Ok(q) && (protocol == Protocol::Off
            ==> q == NexusShareRequest::Unshare(UnshareNexus { node, uuid })) && (protocol
            != Protocol::Off ==> (q matches NexusShareRequest::Share(s) && s.node == node && s.uuid
            == uuid))),
        first_nexus is None ==> (r matches Err(e) && e.kind == ReplyErrorKind::NotFound
            && e.resource == ResourceKind::Nexus && e.source@.len() == 0 && e.extra@
            == "No nexuses found for volume "@ + volume_id@),
{
    match first_nexus {
        Some((node, uuid)) => Ok(nexus_share_request(node, uuid, protocol)),
        None => {
            let mut extra = String::from_str("No nexuses found for volume ");
            extra.append(volume_id.as_str());
            Err(
                ReplyError {
                    kind: ReplyErrorKind::NotFound,
                    resource: ResourceKind::Nexus,
                    source: String::new(),
                    extra,
                },
            )
        },
    }
}

} // verus!
