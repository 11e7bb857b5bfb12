use core_agent::errors::SvcError;
use core_agent::message_bus::{
    CreateNexus, Nexus, NexusShareProtocol, NexusState, Protocol,
};
use core_agent::nexus::{retain_other_children, NexusOperation, NexusSpec};
use core_agent::spec_state::SpecState;
use core_agent::specs::{
    complete_create, complete_update, start_create_inner, start_update_inner,
    validate_update_step,
};

fn create_request() -> CreateNexus {
    CreateNexus {
        node: "n1".to_string(),
        uuid: "x1".to_string(),
        size: 1048576,
        children: vec!["nvmf://n1/r1".to_string()],
        managed: true,
        owner: None,
    }
}

fn created_nexus() -> NexusSpec {
    let req = create_request();
    let mut spec = NexusSpec::from(&req);
    start_create_inner(&mut spec, &req).unwrap();
    complete_create(&mut spec, Ok(()), Ok(())).unwrap();
    spec
}

fn observed(spec: &NexusSpec) -> Nexus {
    Nexus::from(spec)
}

#[test]
fn share_then_unshare_nexus() {
    let mut spec = created_nexus();
    assert_eq!(spec.state, SpecState::Created(NexusState::Online));
    assert_eq!(spec.share, Protocol::Off);
    let status = observed(&spec);
    start_update_inner(&mut spec, &status, NexusOperation::Share(NexusShareProtocol::Nvmf), false)
        .unwrap();
    complete_update(&mut spec, Ok(()), Ok(())).unwrap();
    assert_eq!(spec.share, Protocol::Nvmf);
    let status = observed(&spec);
    start_update_inner(&mut spec, &status, NexusOperation::Unshare, false).unwrap();
    complete_update(&mut spec, Ok(()), Ok(())).unwrap();
    assert_eq!(spec.share, Protocol::Off);
}

#[test]
fn nexus_children_stay_unique() {
    let mut spec = created_nexus();
    let status = observed(&spec);
    let dup = start_update_inner(
        &mut spec,
        &status,
        NexusOperation::AddChild("nvmf://n1/r1".to_string()),
        false,
    );
    assert_eq!(
        dup.err(),
        Some(SvcError::ChildAlreadyExists {
            nexus: "x1".to_string(),
            child: "nvmf://n1/r1".to_string()
        })
    );
    start_update_inner(&mut spec, &status, NexusOperation::AddChild("nvmf://n2/r2".to_string()), false)
        .unwrap();
    complete_update(&mut spec, Ok(()), Ok(())).unwrap();
    assert_eq!(spec.children, vec!["nvmf://n1/r1".to_string(), "nvmf://n2/r2".to_string()]);
    start_update_inner(
        &mut spec,
        &status,
        NexusOperation::RemoveChild("nvmf://n1/r1".to_string()),
        false,
    )
    .unwrap();
    complete_update(&mut spec, Ok(()), Ok(())).unwrap();
    assert_eq!(spec.children, vec!["nvmf://n2/r2".to_string()]);
    let missing = start_update_inner(
        &mut spec,
        &status,
        NexusOperation::RemoveChild("nvmf://n1/r1".to_string()),
        false,
    );
    assert!(matches!(missing, Err(SvcError::ChildNotFound { .. })));
}

#[test]
fn retain_other_children_keeps_order() {
    let children = vec!["a".to_string(), "b".to_string(), "a".to_string(), "c".to_string()];
    assert_eq!(
        retain_other_children(&children, &"a".to_string()),
        vec!["b".to_string(), "c".to_string()]
    );
}

#[test]
fn failed_intermediate_step_undoes_update() {
    let mut spec = created_nexus();
    let status = observed(&spec);
    start_update_inner(&mut spec, &status, NexusOperation::Share(NexusShareProtocol::Iscsi), false)
        .unwrap();
    assert_eq!(validate_update_step(&mut spec, Ok(7u32), Ok(())), Ok(7u32));
    assert!(spec.updating);
    let failed: Result<u32, SvcError> = Err(SvcError::Conflict {});
    assert_eq!(validate_update_step(&mut spec, failed, Ok(())), Err(SvcError::Conflict {}));
    assert!(!spec.updating);
    assert!(spec.operation.is_none());
    assert_eq!(spec.share, Protocol::Off);
}

#[test]
fn nexus_bus_view_lists_children() {
    let spec = created_nexus();
    let bus = Nexus::from(&spec);
    assert_eq!(bus.children.len(), 1);
    assert_eq!(bus.children[0].uri, "nvmf://n1/r1");
    assert_eq!(bus.state, NexusState::Unknown);
    assert_eq!(bus.rebuilds, 0);
}
