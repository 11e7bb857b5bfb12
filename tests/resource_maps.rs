use core_agent::message_bus::{Nexus, NexusState, Pool, PoolState, Protocol, Replica, ReplicaState};
use core_agent::replica::ReplicaSpec;
use core_agent::resource_map::{new_handle, ResourceMap};
use core_agent::states::ResourceStates;
use core_agent::message_bus::{CreateReplica, ReplicaOwners};

fn spec(uuid: &str) -> ReplicaSpec {
    ReplicaSpec::from(&CreateReplica {
        node: "n1".to_string(),
        uuid: uuid.to_string(),
        pool: "p1".to_string(),
        size: 4096,
        thin: true,
        share: Protocol::Off,
        managed: true,
        owners: ReplicaOwners::default(),
    })
}

#[test]
fn insert_get_remove() {
    let mut map: ResourceMap<ReplicaSpec> = ResourceMap::new();
    assert!(map.get(&"r1".to_string()).is_none());
    map.insert("r1".to_string(), new_handle(spec("r1")));
    map.insert("r2".to_string(), new_handle(spec("r2")));
    assert_eq!(map.get(&"r1".to_string()).unwrap().lock().uuid, "r1");
    map.insert("r1".to_string(), new_handle(spec("r9")));
    assert_eq!(map.get(&"r1".to_string()).unwrap().lock().uuid, "r9");
    assert_eq!(map.to_vec().len(), 2);
    map.remove(&"r1".to_string());
    assert!(map.get(&"r1".to_string()).is_none());
    assert_eq!(map.to_vec().len(), 1);
    map.clear();
    assert!(map.to_vec().is_empty());
}

#[test]
fn update_replaces_all_entries() {
    let mut map: ResourceMap<ReplicaSpec> = ResourceMap::new();
    map.insert("stale".to_string(), new_handle(spec("stale")));
    map.update(vec![spec("a"), spec("b")]);
    assert!(map.get(&"stale".to_string()).is_none());
    assert!(map.get(&"a".to_string()).is_some());
    assert!(map.get(&"b".to_string()).is_some());
    assert_eq!(map.to_vec().len(), 2);
}

#[test]
fn states_snapshot() {
    let mut states = ResourceStates::new();
    let replica = Replica {
        node: "n1".to_string(),
        uuid: "r1".to_string(),
        pool: "p1".to_string(),
        thin: false,
        size: 10,
        share: Protocol::Off,
        uri: "bdev:///r1".to_string(),
        state: ReplicaState::Online,
    };
    let pool = Pool {
        node: "n1".to_string(),
        id: "p1".to_string(),
        disks: vec!["/dev/sda".to_string()],
        state: PoolState::Online,
        capacity: 100,
        used: 10,
    };
    let nexus = Nexus {
        node: "n1".to_string(),
        uuid: "x1".to_string(),
        size: 10,
        state: NexusState::Online,
        children: vec![],
        device_uri: String::new(),
        rebuilds: 0,
        share: Protocol::Off,
    };
    states.update(vec![pool], vec![replica.clone()], vec![nexus]);
    let replicas = states.get_replica_states();
    assert_eq!(replicas.len(), 1);
    assert_eq!(replicas[0].replica, replica);
    assert_eq!(replicas[0].state, ReplicaState::Online);
    assert_eq!(states.get_pool_states()[0].pool.id, "p1");
    assert_eq!(states.get_nexus_states()[0].nexus.uuid, "x1");
    states.update(vec![], vec![], vec![]);
    assert!(states.get_replica_states().is_empty());
}
