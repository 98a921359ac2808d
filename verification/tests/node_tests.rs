use brupop::constants::API_VERSION;
use brupop::node::{
    create_node_outcome, node_resource_name, status_patch, update_node_status_outcome,
    BottlerocketNode, BottlerocketNodeError, BottlerocketNodeSelector, BottlerocketNodeSpec,
    BottlerocketNodeState, BottlerocketNodeStatus,
};

fn selector(name: &str, uid: &str) -> BottlerocketNodeSelector {
    BottlerocketNodeSelector { node_name: name.to_string(), node_uid: uid.to_string() }
}

#[test]
fn default_state_is_waiting_for_update() {
    assert_eq!(BottlerocketNodeState::default(), BottlerocketNodeState::WaitingForUpdate);
}

#[test]
fn default_spec_waits_with_no_version() {
    let spec = BottlerocketNodeSpec::default();
    assert_eq!(spec.state(), BottlerocketNodeState::WaitingForUpdate);
    assert_eq!(spec.version(), &None);
}

#[test]
fn spec_new_keeps_state_and_version() {
    let spec = BottlerocketNodeSpec::new(BottlerocketNodeState::PerformingUpdate, Some("1.2.0".to_string()));
    assert_eq!(spec.state(), BottlerocketNodeState::PerformingUpdate);
    assert_eq!(spec.version(), &Some("1.2.0".to_string()));
    assert_eq!(spec.clone(), spec);
}

#[test]
fn status_new_keeps_its_fields() {
    let status = BottlerocketNodeStatus::new(
        "0.0.1".to_string(),
        vec!["0.0.2".to_string(), "0.0.3".to_string()],
        BottlerocketNodeState::MonitoringUpdate,
    );
    assert_eq!(status.current_version(), "0.0.1");
    assert_eq!(status.available_versions(), &vec!["0.0.2".to_string(), "0.0.3".to_string()]);
    assert_eq!(status.current_state(), BottlerocketNodeState::MonitoringUpdate);
    assert_eq!(status.clone(), status);
}

#[test]
fn default_status_is_empty_and_waiting() {
    let status = BottlerocketNodeStatus::default();
    assert_eq!(status.current_version(), "");
    assert!(status.available_versions().is_empty());
    assert_eq!(status.current_state(), BottlerocketNodeState::WaitingForUpdate);
}

#[test]
fn resource_name_prefixes_node_name() {
    assert_eq!(node_resource_name(&selector("ip-10-0-0-1", "uid-1")), "brn-ip-10-0-0-1");
    assert_eq!(node_resource_name(&selector("", "uid-1")), "brn-");
}

#[test]
fn owned_node_is_named_and_owned_by_its_node() {
    let node = BottlerocketNode::owned_by_node(&"node-a".to_string(), &"uid-a".to_string());
    assert_eq!(node.metadata.name, Some("brn-node-a".to_string()));
    assert_eq!(node.metadata.namespace, None);
    assert_eq!(node.metadata.labels, None);
    assert_eq!(node.metadata.annotations, None);
    let owners = node.metadata.owner_references.clone().unwrap();
    assert_eq!(owners.len(), 1);
    assert_eq!(owners[0].api_version, "v1");
    assert_eq!(owners[0].kind, "BottlerocketNode");
    assert_eq!(owners[0].name, "node-a");
    assert_eq!(owners[0].uid, "uid-a");
    assert_eq!(owners[0].controller, None);
    assert_eq!(owners[0].block_owner_deletion, None);
    assert_eq!(node.spec, BottlerocketNodeSpec::default());
    assert_eq!(node.status, None);
}

#[test]
fn created_node_is_the_one_status_updates_address() {
    let sel = selector("node-b", "uid-b");
    let node = BottlerocketNode::owned_by_node(&sel.node_name, &sel.node_uid);
    assert_eq!(node.metadata.name, Some(node_resource_name(&sel)));
}

#[test]
fn new_node_has_only_a_name() {
    let node = BottlerocketNode::new("node-c", BottlerocketNodeSpec::default());
    assert_eq!(node.metadata.name, Some("node-c".to_string()));
    assert_eq!(node.metadata.owner_references, None);
    assert_eq!(node.metadata.namespace, None);
    assert_eq!(node.status, None);
}

#[test]
fn status_patch_carries_api_version_kind_and_status() {
    let status = BottlerocketNodeStatus::new("1.0.0".to_string(), vec![], BottlerocketNodeState::RebootingToUpdate);
    let patch = status_patch(&status);
    assert_eq!(patch.api_version, API_VERSION);
    assert_eq!(patch.api_version, "brupop.bottlerocket.aws/v1");
    assert_eq!(patch.kind, "BottlerocketNode");
    assert_eq!(patch.status, status);
}

#[test]
fn create_outcome_success_returns_the_node() {
    let sel = selector("node-d", "uid-d");
    let node = BottlerocketNode::owned_by_node(&sel.node_name, &sel.node_uid);
    let res = create_node_outcome(&sel, node.clone(), Ok(()));
    assert_eq!(res, Ok(node));
}

#[test]
fn create_outcome_failure_names_the_node() {
    let sel = selector("node-e", "uid-e");
    let node = BottlerocketNode::owned_by_node(&sel.node_name, &sel.node_uid);
    let res = create_node_outcome(&sel, node, Err("conflict".to_string()));
    let err = res.unwrap_err();
    assert_eq!(
        err,
        BottlerocketNodeError::CreateBottlerocketNode { source: "conflict".to_string(), selector: sel }
    );
    assert_eq!(err.message(), "Unable to create BottlerocketNode (node-e, uid-e): conflict");
}

#[test]
fn update_outcome_success_and_failure() {
    let sel = selector("node-f", "uid-f");
    assert_eq!(update_node_status_outcome(&sel, Ok(())), Ok(()));
    let err = update_node_status_outcome(&sel, Err("not found".to_string())).unwrap_err();
    assert_eq!(
        err,
        BottlerocketNodeError::UpdateBottlerocketNodeStatus { source: "not found".to_string(), selector: sel }
    );
    assert_eq!(err.message(), "Unable to update BottlerocketNode status (node-f, uid-f): not found");
}
