use brupop::api::{CreateBottlerocketNodeRequest, UpdateBottlerocketNodeRequest, UpsertBottlerocketNodeRequest};
use brupop::node::{BottlerocketNodeSpec, BottlerocketNodeState, BottlerocketNodeStatus};

#[test]
fn create_request_object_is_owned_by_the_node() {
    let req = CreateBottlerocketNodeRequest { node_name: "Test Node".to_string(), node_uid: "asdfasdfasdf".to_string() };
    let node = req.node_object();
    assert_eq!(node.metadata.name, Some("brn-Test Node".to_string()));
    let owners = node.metadata.owner_references.unwrap();
    assert_eq!(owners.len(), 1);
    assert_eq!(owners[0].name, "Test Node");
    assert_eq!(owners[0].uid, "asdfasdfasdf");
    assert_eq!(owners[0].kind, "BottlerocketNode");
    assert_eq!(owners[0].api_version, "v1");
    assert_eq!(node.spec, BottlerocketNodeSpec::default());
}

#[test]
fn update_request_patches_the_created_object() {
    let status = BottlerocketNodeStatus::new("0.0.1".to_owned(), vec![], BottlerocketNodeState::default());
    let update = UpdateBottlerocketNodeRequest {
        node_name: "node-a".to_string(),
        node_uid: "uid-a".to_string(),
        node_status: status.clone(),
    };
    let create = CreateBottlerocketNodeRequest { node_name: "node-a".to_string(), node_uid: "uid-a".to_string() };
    let (name, patch) = update.status_patch();
    assert_eq!(name, "brn-node-a");
    assert_eq!(Some(name), create.node_object().metadata.name);
    assert_eq!(patch.api_version, "brupop.bottlerocket.aws/v1");
    assert_eq!(patch.kind, "BottlerocketNode");
    assert_eq!(patch.status, status);
}

#[test]
fn upsert_request_object_is_named_as_the_node() {
    let req = UpsertBottlerocketNodeRequest {
        node_name: "node-b".to_string(),
        node_status: BottlerocketNodeStatus::default(),
    };
    let node = req.node_object();
    assert_eq!(node.metadata.name, Some("node-b".to_string()));
    assert_eq!(node.metadata.owner_references, None);
    assert_eq!(node.spec, BottlerocketNodeSpec::default());
    assert_eq!(node.status, None);
}
