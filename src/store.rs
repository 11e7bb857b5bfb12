//! Definitions shared by everything that is kept in the key-value store.

use vstd::prelude::*;
use vstd::string::StringExecFns;
use crate::text::{decimal, decimal_of};

verus! {

/// JSON value, as held by the store.
#[verifier::external_type_specification]
#[verifier::external_body]
pub struct ExJsonValue(serde_json::Value);

/// Definition of errors that can be returned from the key-value store.
/// The failure reported by the store client is carried as its message.
#[derive(Clone, Debug, PartialEq)]
pub enum StoreError {
    /// Failed to connect to the key-value store.
    Connect { source: String },
    /// Failed to 'put' an entry in the store.
    Put { key: String, value: String, source: String },
    /// Failed to 'get' an entry from the store.
    Get { key: String, source: String },
    /// Failed to find an entry with the given key.
    MissingEntry { key: String },
    /// Failed to 'delete' an entry from the store.
    Delete { key: String, source: String },
    /// Failed to 'watch' an entry in the store.
    Watch { key: String, source: String },
    /// Empty key.
    KeyString { source: String },
    /// Empty value.
    ValueString { source: String },
    /// Failed to deserialise value.
    DeserialiseValue { value: String, source: String },
    /// Failed to serialise value.
    SerialiseValue { source: String },
    /// Failed to run operation within a timeout (in milliseconds).
    Timeout { operation: String, timeout_ms: u64 },
}

/// Display text of a store error.
pub open spec fn store_error_message(e: StoreError) -> Seq<char> {
    match e {
        StoreError::Connect { source } => "Failed to connect to store. Error "@ + source@,
        StoreError::Put { key, value, source } => "Failed to 'put' entry with key "@ + key@
            + " and value "@ + value@ + ". Error "@ + source@,
        StoreError::Get { key, source } => "Failed to 'get' entry with key "@ + key@
            + ". Error "@ + source@,
        StoreError::MissingEntry { key } => "Entry with key "@ + key@ + " not found."@,
        StoreError::Delete { key, source } => "Failed to 'delete' entry with key "@ + key@
            + ". Error "@ + source@,
        StoreError::Watch { key, source } => "Failed to 'watch' entry with key "@ + key@
            + ". Error "@ + source@,
        StoreError::KeyString { source } => "Failed to get key as string. Error "@ + source@,
        StoreError::ValueString { source } => "Failed to get value as string. Error "@ + source@,
        StoreError::DeserialiseValue { value, source } => "Failed to deserialise value "@ + value@
            + ". Error "@ + source@,
        StoreError::SerialiseValue { source } => "Failed to serialise value. Error "@ + source@,
        StoreError::Timeout { operation, timeout_ms } => "Timed out during "@ + operation@
            + " operation after "@ + decimal_of(timeout_ms as nat) + "ms"@,
    }
}

impl StoreError {
    /// Display text of this error.
    pub fn message(&self) -> (r: String)
        ensures
            r@ == store_error_message(*self),
    {
        match self {
            StoreError::Connect { source } => {
                let mut s = String::from_str("Failed to connect to store. Error ");
                s.append(source.as_str());
                s
            },
            StoreError::Put { key, value, source } => {
                let mut s = String::from_str("Failed to 'put' entry with key ");
                s.append(key.as_str());
                s.append(" and value ");
                s.append(value.as_str());
                s.append(". Error ");
                s.append(source.as_str());
                s
            },
            StoreError::Get { key, source } => {
                let mut s = String::from_str("Failed to 'get' entry with key ");
                s.append(key.as_str());
                s.append(". Error ");
                s.append(source.as_str());
                s
            },
            StoreError::MissingEntry { key } => {
                let mut s = String::from_str("Entry with key ");
                s.append(key.as_str());
                s.append(" not found.");
                s
            },
            StoreError::Delete { key, source } => {
                let mut s = String::from_str("Failed to 'delete' entry with key ");
                s.append(key.as_str());
                s.append(". Error ");
                s.append(source.as_str());
                s
            },
            StoreError::Watch { key, source } => {
                let mut s = String::from_str("Failed to 'watch' entry with key ");
                s.append(key.as_str());
                s.append(". Error ");
                s.append(source.as_str());
                s
            },
            StoreError::KeyString { source } => {
                let mut s = String::from_str("Failed to get key as string. Error ");
                s.append(source.as_str());
                s
            },
            StoreError::ValueString { source } => {
                let mut s = String::from_str("Failed to get value as string. Error ");
                s.append(source.as_str());
                s
            },
            StoreError::DeserialiseValue { value, source } => {
                let mut s = String::from_str("Failed to deserialise value ");
                s.append(value.as_str());
                s.append(". Error ");
                s.append(source.as_str());
                s
            },
            StoreError::SerialiseValue { source } => {
                let mut s = String::from_str("Failed to serialise value. Error ");
                s.append(source.as_str());
                s
            },
            StoreError::Timeout { operation, timeout_ms } => {
                let mut s = String::from_str("Timed out during ");
                s.append(operation.as_str());
                s.append(" operation after ");
                let t = decimal(*timeout_ms);
                s.append(t.as_str());
                s.append("ms");
                s
            },
        }
    }
}

/// Representation of a watch event.
#[derive(Debug)]
pub enum WatchEvent {
    /// Put operation containing the key and value
    Put(String, serde_json::Value),
    /// Delete operation
    Delete,
}

/// All types of objects which are storable in our store
#[derive(Clone, Copy, Debug, PartialEq, Eq, Structural)]
pub enum StorableObjectType {
    WatchConfig,
    Volume,
    Nexus,
    NexusSpec,
    NexusState,
    Node,
    NodeSpec,
    Pool,
    PoolSpec,
    Replica,
    ReplicaState,
    ReplicaSpec,
    VolumeSpec,
    VolumeState,
    ChildSpec,
    ChildState,
}

/// Name of an object type, as it appears in store keys.
pub open spec fn object_type_name(t: StorableObjectType) -> Seq<char> {
    match t {
        StorableObjectType::WatchConfig => "WatchConfig"@,
        StorableObjectType::Volume => "Volume"@,
        StorableObjectType::Nexus => "Nexus"@,
        StorableObjectType::NexusSpec => "NexusSpec"@,
        StorableObjectType::NexusState => "NexusState"@,
        StorableObjectType::Node => "Node"@,
        StorableObjectType::NodeSpec => "NodeSpec"@,
        StorableObjectType::Pool => "Pool"@,
        StorableObjectType::PoolSpec => "PoolSpec"@,
        StorableObjectType::Replica => "Replica"@,
        StorableObjectType::ReplicaState => "ReplicaState"@,
        StorableObjectType::ReplicaSpec => "ReplicaSpec"@,
        StorableObjectType::VolumeSpec => "VolumeSpec"@,
        StorableObjectType::VolumeState => "VolumeState"@,
        StorableObjectType::ChildSpec => "ChildSpec"@,
        StorableObjectType::ChildState => "ChildState"@,
    }
}

impl StorableObjectType {
    /// Name of this object type, as it appears in store keys.
    pub fn name(&self) -> (r: &'static str)
        ensures
            r@ == object_type_name(*self),
    {
        match self {
            StorableObjectType::WatchConfig => "WatchConfig",
            StorableObjectType::Volume => "Volume",
            StorableObjectType::Nexus => "Nexus",
            StorableObjectType::NexusSpec => "NexusSpec",
            StorableObjectType::NexusState => "NexusState",
            StorableObjectType::Node => "Node",
            StorableObjectType::NodeSpec => "NodeSpec",
            StorableObjectType::Pool => "Pool",
            StorableObjectType::PoolSpec => "PoolSpec",
            StorableObjectType::Replica => "Replica",
            StorableObjectType::ReplicaState => "ReplicaState",
            StorableObjectType::ReplicaSpec => "ReplicaSpec",
            StorableObjectType::VolumeSpec => "VolumeSpec",
            StorableObjectType::VolumeState => "VolumeState",
            StorableObjectType::ChildSpec => "ChildSpec",
            StorableObjectType::ChildState => "ChildState",
        }
    }

    /// Name of this object type, as an owned string.
    pub fn to_string(&self) -> (r: String)
        ensures
            r@ == object_type_name(*self),
    {
        String::from_str(self.name())
    }
}

/// The store key of an object: its type name, a slash, and its uuid.
pub open spec fn store_key(t: StorableObjectType, uuid: Seq<char>) -> Seq<char> {
    object_type_name(t) + "/"@ + uuid
}

/// The key prefix under which all objects of a type are kept.
pub open spec fn store_key_prefix(t: StorableObjectType) -> Seq<char> {
    object_type_name(t)
}

/// The key prefix under which all objects of a type are kept.
pub fn key_prefix(t: StorableObjectType) -> (r: String)
    ensures
        r@ == store_key_prefix(t),
{
    String::from_str(t.name())
}

/// Implemented by Keys of Storable Objects, eg: VolumeId
pub trait ObjectKey: Sized {
    /// Type of the object that the key names.
    spec fn spec_key_type(&self) -> StorableObjectType;

    /// Uuid of the object that the key names.
    spec fn spec_key_uuid(&self) -> Seq<char>;

    fn key_type(&self) -> (r: StorableObjectType)
        ensures
            r == self.spec_key_type(),
    ;

    fn key_uuid(&self) -> (r: String)
        ensures
            r@ == self.spec_key_uuid(),
    ;

}

/// create a key based on the object's key trait
pub fn get_key<K: ObjectKey>(k: &K) -> (r: String)
    ensures
        r@ == store_key(k.spec_key_type(), k.spec_key_uuid()),
{
    let mut s = String::from_str(k.key_type().name());
    s.append("/");
    let uuid = k.key_uuid();
    s.append(uuid.as_str());
    s
}

/// Implemented by objects which get stored in the store, eg: Volume
pub trait StorableObject: Sized {
    type Key: ObjectKey;

    /// The key of this object.
    spec fn spec_key(&self) -> Self::Key;

    fn key(&self) -> (r: Self::Key)
        ensures
            r == self.spec_key(),
    ;
}

/// Store keys type trait: keys are shared between the tasks that use the store.
pub trait StoreKey: Sync {}

impl<T: Sync> StoreKey for T {}

/// Store value type trait: values are shared between the tasks that use the store.
pub trait StoreValue: Sync {}

impl<T: Sync> StoreValue for T {}

} // verus!
