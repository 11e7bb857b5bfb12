//! Per-node gRPC context: the node's endpoint, its timeouts and the lock that
//! serialises mutating gRPC calls against the node.

use std::sync::Arc;
use std::time::Duration;
use vstd::prelude::*;
use vstd::string::StringExecFns;
use crate::errors::SvcError;
use crate::message_bus::NodeId;

verus! {

/// Lock that serialises mutating gRPC calls against a node.
#[verifier::external_type_specification]
#[verifier::external_body]
#[verifier::reject_recursive_types(T)]
pub struct ExTokioMutex<T: ?Sized>(tokio::sync::Mutex<T>);

/// A parsed URI.
#[verifier::external_type_specification]
#[verifier::external_body]
pub struct ExUri(http::Uri);

/// Why a text is not a URI.
#[verifier::external_type_specification]
#[verifier::external_body]
pub struct ExInvalidUri(http::uri::InvalidUri);

/// A gRPC channel's endpoint and its settings.
#[verifier::external_type_specification]
#[verifier::external_body]
pub struct ExEndpoint(tonic::transport::Endpoint);

/// Whether a text parses as a URI.
pub uninterp spec fn uri_parses(text: Seq<char>) -> bool;

/// Relies on http's `Uri::from_str`: whether the text parses depends on the
/// text alone.
#[verifier::external_body]
fn parse_uri(text: &str) -> (r: Result<http::Uri, http::uri::InvalidUri>)
    ensures
        r is Ok == uri_parses(text@),
{
    <http::Uri as std::str::FromStr>::from_str(text)
}

/// Relies on the `Display` of http's `InvalidUri`: its message.
#[verifier::external_body]
fn invalid_uri_message(error: &http::uri::InvalidUri) -> String {
    error.to_string()
}

/// Relies on tonic's `Endpoint::from(Uri)`: an endpoint for the URI.
#[verifier::external_body]
fn endpoint_from(uri: http::Uri) -> tonic::transport::Endpoint {
    tonic::transport::Endpoint::from(uri)
}

/// Relies on tonic's `Endpoint::timeout`: the endpoint with a request timeout.
#[verifier::external_body]
fn endpoint_timeout(endpoint: tonic::transport::Endpoint, timeout: Duration) -> tonic::transport::Endpoint {
    endpoint.timeout(timeout)
}

/// gRPC connect and request timeouts of a node.
#[derive(Clone, Copy, Debug)]
pub struct NodeCommsTimeout {
    /// time allowed to open a channel
    pub connect: Duration,
    /// time allowed for a request
    pub request: Duration,
}

/// The URI of a node's gRPC endpoint.
pub open spec fn grpc_uri_text(endpoint: Seq<char>) -> Seq<char> {
    "http://"@ + endpoint
}

/// The URI text of a node's gRPC endpoint.
pub fn grpc_uri(endpoint: &str) -> (r: String)
    ensures
        r@ == grpc_uri_text(endpoint@),
{
    let mut uri = String::from_str("http://");
    uri.append(endpoint);
    uri
}

/// Context with a gRPC client and a lock to serialize mutating gRPC calls
pub struct GrpcContext {
    /// gRPC CRUD lock
    pub lock: Arc<tokio::sync::Mutex<()>>,
    /// node identifier
    pub node: NodeId,
    /// gRPC URI endpoint
    pub endpoint: tonic::transport::Endpoint,
    /// gRPC connect and request timeouts
    pub comms_timeouts: NodeCommsTimeout,
}

impl GrpcContext {
    /// Builds the context from the outcome of parsing the endpoint's URI text:
    /// an invalid URI gives `GrpcConnectUri`.
    pub fn from_parsed_uri(
        lock: Arc<tokio::sync::Mutex<()>>,
        node: &NodeId,
        uri: String,
        parsed: Result<http::Uri, http::uri::InvalidUri>,
        comms_timeouts: &NodeCommsTimeout,
    ) -> (r: Result<Self, SvcError>)
        ensures
            r is Ok <==> parsed is Ok,
            r matches Err(e) ==> (e matches SvcError::GrpcConnectUri { node_id, uri: u, .. }
                && node_id == *node && u == uri),
            r matches Ok(c) ==> c.node == *node && c.lock == lock && c.comms_timeouts.connect
                == comms_timeouts.connect && c.comms_timeouts.request == comms_timeouts.request,
    {
        match parsed {
            Err(error) => Err(
                SvcError::GrpcConnectUri {
                    node_id: node.clone(),
                    uri,
                    source: invalid_uri_message(&error),
                },
            ),
            Ok(uri) => {
                let endpoint = endpoint_timeout(endpoint_from(uri), comms_timeouts.request);
                Ok(
                    GrpcContext {
                        node: node.clone(),
                        lock,
                        endpoint,
                        comms_timeouts: NodeCommsTimeout {
                            connect: comms_timeouts.connect,
                            request: comms_timeouts.request,
                        },
                    },
                )
            },
        }
    }

    /// A context for the node's endpoint `http://<endpoint>`; an endpoint that
    /// does not make a valid URI gives `GrpcConnectUri`.
    pub fn new(
        lock: Arc<tokio::sync::Mutex<()>>,
        node: &NodeId,
        endpoint: &str,
        comms_timeouts: &NodeCommsTimeout,
    ) -> (r: Result<Self, SvcError>)
        ensures
            r is Ok <==> uri_parses(grpc_uri_text(endpoint@)),
            r matches Err(e) ==> (e matches SvcError::GrpcConnectUri { node_id, uri, .. }
                && node_id == *node && uri@ == grpc_uri_text(endpoint@)),
            r matches Ok(c) ==> c.node == *node && c.lock == lock && c.comms_timeouts.connect
                == comms_timeouts.connect && c.comms_timeouts.request == comms_timeouts.request,
    {
        let uri = grpc_uri(endpoint);
        let parsed = parse_uri(uri.as_str());
        Self::from_parsed_uri(lock, node, uri, parsed, comms_timeouts)
    }
}

} // verus!
