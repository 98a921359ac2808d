//! The requests that the brupop API server answers, and the objects and
//! patches it sends to Kubernetes for each of them.
use vstd::prelude::*;

use crate::constants::API_VERSION;
use crate::meta::empty_meta_view;
use crate::node::{
    default_spec_view, owned_node_view, resource_name_for, resource_name_view, spells_brn_then, status_patch, BottlerocketNode,
    BottlerocketNodeSpec, BottlerocketNodeStatus, BottlerocketNodeView, NodeStatusPatch,
};
use crate::meta::ObjectMetaView;

verus! {

/// Asks for the BottlerocketNode object of a Kubernetes node to be created.
#[derive(Debug, Clone, PartialEq, Eq)]
pub struct CreateBottlerocketNodeRequest {
    pub node_name: String,
    pub node_uid: String,
}

/// Asks for the status of a Kubernetes node's BottlerocketNode object to be replaced.
#[derive(Debug, Clone, PartialEq, Eq)]
pub struct UpdateBottlerocketNodeRequest {
    pub node_name: String,
    pub node_uid: String,
    pub node_status: BottlerocketNodeStatus,
}

/// Asks for the BottlerocketNode object of a Kubernetes node to be created or updated.
#[derive(Debug, Clone, PartialEq, Eq)]
pub struct UpsertBottlerocketNodeRequest {
    pub node_name: String,
    pub node_status: BottlerocketNodeStatus,
}

impl CreateBottlerocketNodeRequest {
    /// The object that answering the request creates: named after the node,
    /// owned by it, with the default spec.
    pub fn node_object(&self) -> (node: BottlerocketNode)
        ensures
            node@ == owned_node_view(self.node_name@, self.node_uid@),
    {
        BottlerocketNode::owned_by_node(&self.node_name, &self.node_uid)
    }
}

impl UpdateBottlerocketNodeRequest {
    /// The name of the object that answering the request patches, and the
    /// patch: the status of the request under the system's API version.
    pub fn status_patch(&self) -> (res: (String, NodeStatusPatch))
        ensures
            res.0@ == resource_name_view(self.node_name@),
            spells_brn_then(res.0@, self.node_name@),
            res.1.api_version@ == API_VERSION@,
            res.1.kind@ == "BottlerocketNode"@,
            res.1.status@ == self.node_status@,
    {
        (resource_name_for(&self.node_name), status_patch(&self.node_status))
    }
}

impl UpsertBottlerocketNodeRequest {
    /// The object that answering the request writes: named exactly as the
    /// node, with the default spec and no status.
    pub fn node_object(&self) -> (node: BottlerocketNode)
        ensures
            node@ == (BottlerocketNodeView {
                metadata: ObjectMetaView { name: Some(self.node_name@), ..empty_meta_view() },
                spec: default_spec_view(),
                status: None,
            }),
    {
        BottlerocketNode::new(self.node_name.as_str(), BottlerocketNodeSpec::default())
    }
}

/// The status that the API server patches for an update request is written
/// to the very object that it creates for a create request on the same node.
pub proof fn lemma_update_targets_created_object(node_name: Seq<char>, node_uid: Seq<char>)
    ensures
        owned_node_view(node_name, node_uid).metadata.name == Some(resource_name_view(node_name)),
{
}

/// Distinct nodes get distinct BottlerocketNode objects: the object's name
/// determines the node's name.
pub proof fn lemma_resource_name_injective(a: Seq<char>, b: Seq<char>)
    ensures
        resource_name_view(a) == resource_name_view(b) ==> a == b,
{
    if resource_name_view(a) == resource_name_view(b) {
        let p = "brn-"@;
        assert(a =~= resource_name_view(a).subrange(p.len() as int, resource_name_view(a).len() as int));
        assert(b =~= resource_name_view(b).subrange(p.len() as int, resource_name_view(b).len() as int));
    }
}

} // verus!
