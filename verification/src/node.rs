//! The BottlerocketNode custom resource: its spec, its status, and the objects
//! and requests that the system makes of it.
use vstd::prelude::*;

use crate::constants::API_VERSION;
use crate::meta::{owned, ObjectMeta, ObjectMetaView, OwnerReference, OwnerReferenceView};

verus! {

/// A node's state in the update state machine.
#[derive(Debug, Clone, Copy, PartialEq, Eq, Structural)]
pub enum BottlerocketNodeState {
    WaitingForUpdate,
    PreparingToUpdate,
    PerformingUpdate,
    RebootingToUpdate,
    MonitoringUpdate,
}

impl Default for BottlerocketNodeState {
    fn default() -> (state: Self)
        ensures
            state == BottlerocketNodeState::WaitingForUpdate,
    {
        BottlerocketNodeState::WaitingForUpdate
    }
}

/// The desired state of a node: the controller sets it and the agent on the
/// node drives the node towards it.
#[derive(Debug, PartialEq, Eq)]
pub struct BottlerocketNodeSpec {
    state: BottlerocketNodeState,
    version: Option<String>,
}

/// The mathematical value of a `BottlerocketNodeSpec`.
pub struct BottlerocketNodeSpecView {
    pub state: BottlerocketNodeState,
    pub version: Option<Seq<char>>,
}

impl View for BottlerocketNodeSpec {
    type V = BottlerocketNodeSpecView;

    closed spec fn view(&self) -> BottlerocketNodeSpecView {
        BottlerocketNodeSpecView { state: self.state, version: self.version.deep_view() }
    }
}

/// The spec of a node that no one has asked to update yet.
pub open spec fn default_spec_view() -> BottlerocketNodeSpecView {
    BottlerocketNodeSpecView { state: BottlerocketNodeState::WaitingForUpdate, version: None }
}

impl BottlerocketNodeSpec {
    /// A spec that asks for `state` and, if given, `version`.
    pub fn new(state: BottlerocketNodeState, version: Option<String>) -> (spec: Self)
        ensures
            spec@ == (BottlerocketNodeSpecView { state, version: version.deep_view() }),
    {
        BottlerocketNodeSpec { state, version }
    }

    /// The desired state.
    pub fn state(&self) -> (state: BottlerocketNodeState)
        ensures
            state == self@.state,
    {
        self.state
    }

    /// The desired version, if one is set.
    pub fn version(&self) -> (version: &Option<String>)
        ensures
            version.deep_view() == self@.version,
    {
        &self.version
    }
}

impl Clone for BottlerocketNodeSpec {
    fn clone(&self) -> (res: Self)
        ensures
            res@ == self@,
    {
        let version = match &self.version {
            Some(v) => Some(v.clone()),
            None => None,
        };
        BottlerocketNodeSpec { state: self.state, version }
    }
}

impl Default for BottlerocketNodeSpec {
    fn default() -> (spec: Self)
        ensures
            spec@ == default_spec_view(),
    {
        BottlerocketNodeSpec { state: BottlerocketNodeState::WaitingForUpdate, version: None }
    }
}

/// The current state of a node, as the agent on the node reports it.
#[derive(Debug, PartialEq, Eq)]
pub struct BottlerocketNodeStatus {
    current_version: String,
    available_versions: Vec<String>,
    current_state: BottlerocketNodeState,
}

/// The mathematical value of a `BottlerocketNodeStatus`.
pub struct BottlerocketNodeStatusView {
    pub current_version: Seq<char>,
    pub available_versions: Seq<Seq<char>>,
    pub current_state: BottlerocketNodeState,
}

impl View for BottlerocketNodeStatus {
    type V = BottlerocketNodeStatusView;

    closed spec fn view(&self) -> BottlerocketNodeStatusView {
        BottlerocketNodeStatusView {
            current_version: self.current_version@,
            available_versions: self.available_versions.deep_view(),
            current_state: self.current_state,
        }
    }
}

impl BottlerocketNodeStatus {
    /// A status that reports the given version, available versions and state.
    pub fn new(
        current_version: String,
        available_versions: Vec<String>,
        current_state: BottlerocketNodeState,
    ) -> (status: Self)
        ensures
            status@ == (BottlerocketNodeStatusView {
                current_version: current_version@,
                available_versions: available_versions.deep_view(),
                current_state,
            }),
    {
        BottlerocketNodeStatus { current_version, available_versions, current_state }
    }

    /// The version the node runs.
    pub fn current_version(&self) -> (version: &String)
        ensures
            version@ == self@.current_version,
    {
        &self.current_version
    }

    /// The versions the node could update to.
    pub fn available_versions(&self) -> (versions: &Vec<String>)
        ensures
            versions.deep_view() == self@.available_versions,
    {
        &self.available_versions
    }

    /// The state the node is in.
    pub fn current_state(&self) -> (state: BottlerocketNodeState)
        ensures
            state == self@.current_state,
    {
        self.current_state
    }
}

impl Clone for BottlerocketNodeStatus {
    fn clone(&self) -> (res: Self)
        ensures
            res@ == self@,
    {
        let mut versions: Vec<String> = Vec::new();
        let n = self.available_versions.len();
        for i in 0..n
            invariant
                n == self.available_versions.len(),
                versions.len() == i,
                forall|j: int| 0 <= j < i ==> #[trigger] versions@[j]@ == self.available_versions@[j]@,
        {
            versions.push(self.available_versions[i].clone());
        }
        let res = BottlerocketNodeStatus {
            current_version: self.current_version.clone(),
            available_versions: versions,
            current_state: self.current_state,
        };
        assert(res.available_versions.deep_view() =~= self.available_versions.deep_view());
        res
    }
}

impl Default for BottlerocketNodeStatus {
    fn default() -> (status: Self)
        ensures
            status@ == (BottlerocketNodeStatusView {
                current_version: Seq::empty(),
                available_versions: Seq::empty(),
                current_state: BottlerocketNodeState::WaitingForUpdate,
            }),
    {
        let status = BottlerocketNodeStatus {
            current_version: String::new(),
            available_versions: Vec::new(),
            current_state: BottlerocketNodeState::WaitingForUpdate,
        };
        assert(status.available_versions.deep_view() =~= Seq::<Seq<char>>::empty());
        status
    }
}

/// The Kubernetes node that a BottlerocketNode object belongs to.
#[derive(Debug, PartialEq, Eq)]
pub struct BottlerocketNodeSelector {
    pub node_name: String,
    pub node_uid: String,
}

/// The mathematical value of a `BottlerocketNodeSelector`.
pub struct BottlerocketNodeSelectorView {
    pub node_name: Seq<char>,
    pub node_uid: Seq<char>,
}

impl View for BottlerocketNodeSelector {
    type V = BottlerocketNodeSelectorView;

    open spec fn view(&self) -> BottlerocketNodeSelectorView {
        BottlerocketNodeSelectorView { node_name: self.node_name@, node_uid: self.node_uid@ }
    }
}

impl Clone for BottlerocketNodeSelector {
    fn clone(&self) -> (res: Self)
        ensures
            res@ == self@,
    {
        BottlerocketNodeSelector { node_name: self.node_name.clone(), node_uid: self.node_uid.clone() }
    }
}

/// The name of the BottlerocketNode object of the Kubernetes node `node_name`.
pub open spec fn resource_name_view(node_name: Seq<char>) -> Seq<char> {
    "brn-"@ + node_name
}

/// `name` spells `b`, `r`, `n`, `-` and then `node_name`, character for character.
pub open spec fn spells_brn_then(name: Seq<char>, node_name: Seq<char>) -> bool {
    &&& name.len() == node_name.len() + 4
    &&& name[0] == 'b'
    &&& name[1] == 'r'
    &&& name[2] == 'n'
    &&& name[3] == '-'
    &&& forall|i: int| 0 <= i < node_name.len() ==> #[trigger] name[i + 4] == node_name[i]
}

/// The object of every node is named `brn-` followed by the node's name: four
/// fixed characters, then the node's name unchanged, whatever its length.
pub proof fn lemma_resource_name_spelled_out(node_name: Seq<char>)
    ensures
        spells_brn_then(resource_name_view(node_name), node_name),
{
    reveal_strlit("brn-");
    let r = resource_name_view(node_name);
    assert forall|i: int| 0 <= i < node_name.len() implies #[trigger] r[i + 4] == node_name[i] by {
        assert(r[i + 4] == node_name[i]);
    }
}

pub(crate) fn resource_name_for(node_name: &String) -> (name: String)
    ensures
        name@ == resource_name_view(node_name@),
        spells_brn_then(name@, node_name@),
{
    let mut name = owned("brn-");
    name.append(node_name.as_str());
    proof {
        lemma_resource_name_spelled_out(node_name@);
    }
    name
}

/// The name of the BottlerocketNode object of the node that `node_selector` names.
pub fn node_resource_name(node_selector: &BottlerocketNodeSelector) -> (name: String)
    ensures
        name@ == resource_name_view(node_selector.node_name@),
        spells_brn_then(name@, node_selector.node_name@),
{
    resource_name_for(&node_selector.node_name)
}

/// The BottlerocketNode custom resource object.
#[derive(Debug, Clone, PartialEq, Eq)]
pub struct BottlerocketNode {
    pub metadata: ObjectMeta,
    pub spec: BottlerocketNodeSpec,
    pub status: Option<BottlerocketNodeStatus>,
}

/// The mathematical value of a `BottlerocketNode`.
pub struct BottlerocketNodeView {
    pub metadata: ObjectMetaView,
    pub spec: BottlerocketNodeSpecView,
    pub status: Option<BottlerocketNodeStatusView>,
}

impl View for BottlerocketNode {
    type V = BottlerocketNodeView;

    open spec fn view(&self) -> BottlerocketNodeView {
        BottlerocketNodeView {
            metadata: self.metadata@,
            spec: self.spec@,
            status: match self.status {
                Some(s) => Some(s@),
                None => None,
            },
        }
    }
}

/// The owner reference that ties a BottlerocketNode object to the Kubernetes
/// node `node_name` with uid `node_uid`.
pub open spec fn node_owner_reference_view(node_name: Seq<char>, node_uid: Seq<char>) -> OwnerReferenceView {
    OwnerReferenceView {
        api_version: "v1"@,
        kind: "BottlerocketNode"@,
        name: node_name,
        uid: node_uid,
        controller: None,
        block_owner_deletion: None,
    }
}

/// The BottlerocketNode object that is created for the Kubernetes node
/// `node_name` with uid `node_uid`: named after the node, owned by it, with the
/// default spec and no status.
pub open spec fn owned_node_view(node_name: Seq<char>, node_uid: Seq<char>) -> BottlerocketNodeView {
    BottlerocketNodeView {
        metadata: ObjectMetaView {
            name: Some(resource_name_view(node_name)),
            namespace: None,
            labels: None,
            annotations: None,
            owner_references: Some(seq![node_owner_reference_view(node_name, node_uid)]),
        },
        spec: default_spec_view(),
        status: None,
    }
}

/// Every node enters the update state machine waiting for an update, with no
/// version asked for: the object created for it carries the default spec.
pub proof fn lemma_new_nodes_wait_for_update(node_name: Seq<char>, node_uid: Seq<char>)
    ensures
        owned_node_view(node_name, node_uid).spec.state == BottlerocketNodeState::WaitingForUpdate,
        owned_node_view(node_name, node_uid).spec.version is None,
        owned_node_view(node_name, node_uid).status is None,
{
}

/// The object created for a node is owned by exactly that node: one owner
/// reference, of API version `v1` and kind `BottlerocketNode`, carrying the
/// node's name and uid, whatever they are.
pub proof fn lemma_created_node_is_owned_by_its_node(node_name: Seq<char>, node_uid: Seq<char>)
    ensures
        owned_node_view(node_name, node_uid).metadata.owner_references == Some(seq![OwnerReferenceView {
            api_version: "v1"@,
            kind: "BottlerocketNode"@,
            name: node_name,
            uid: node_uid,
            controller: None,
            block_owner_deletion: None,
        }]),
        owned_node_view(node_name, node_uid).metadata.name matches Some(name)
            && spells_brn_then(name, node_name),
{
    lemma_resource_name_spelled_out(node_name);
}

impl BottlerocketNode {
    /// An object named `name` with the given spec, no other metadata and no status.
    pub fn new(name: &str, spec: BottlerocketNodeSpec) -> (node: Self)
        ensures
            node@ == (BottlerocketNodeView {
                metadata: ObjectMetaView { name: Some(name@), ..crate::meta::empty_meta_view() },
                spec: spec@,
                status: None,
            }),
    {
        let mut metadata = ObjectMeta::empty();
        metadata.name = Some(owned(name));
        BottlerocketNode { metadata, spec, status: None }
    }

    /// The object that represents the Kubernetes node `node_name` with uid `node_uid`.
    pub fn owned_by_node(node_name: &String, node_uid: &String) -> (node: Self)
        ensures
            node@ == owned_node_view(node_name@, node_uid@),
            node.metadata.name matches Some(name) && spells_brn_then(name@, node_name@),
            node.metadata.owner_references matches Some(owners) && owners@.len() == 1
                && owners@[0].api_version@ == "v1"@
                && owners@[0].kind@ == "BottlerocketNode"@
                && owners@[0].name@ == node_name@
                && owners@[0].uid@ == node_uid@
                && owners@[0].controller is None
                && owners@[0].block_owner_deletion is None,
            node.status is None,
    {
        let owner = OwnerReference {
            api_version: owned("v1"),
            kind: owned("BottlerocketNode"),
            name: node_name.clone(),
            uid: node_uid.clone(),
            controller: None,
            block_owner_deletion: None,
        };
        let mut metadata = ObjectMeta::empty();
        metadata.name = Some(resource_name_for(node_name));
        metadata.owner_references = Some(vec![owner]);
        let node = BottlerocketNode { metadata, spec: BottlerocketNodeSpec::default(), status: None };
        assert(node@.metadata.owner_references->0 =~= seq![node_owner_reference_view(node_name@, node_uid@)]);
        node
    }
}

/// A merge patch that replaces the status of a BottlerocketNode object.
#[derive(Debug, Clone, PartialEq, Eq)]
pub struct NodeStatusPatch {
    pub api_version: String,
    pub kind: String,
    pub status: BottlerocketNodeStatus,
}

/// The patch that sets a node's status to `status`.
pub fn status_patch(status: &BottlerocketNodeStatus) -> (patch: NodeStatusPatch)
    ensures
        patch.api_version@ == API_VERSION@,
        patch.kind@ == "BottlerocketNode"@,
        patch.status@ == status@,
{
    NodeStatusPatch { api_version: owned(API_VERSION), kind: owned("BottlerocketNode"), status: status.clone() }
}

/// An error in reading or writing a BottlerocketNode object; `source` is the
/// message of the error that the Kubernetes API returned.
#[derive(Debug, PartialEq, Eq)]
pub enum BottlerocketNodeError {
    CreateBottlerocketNode { source: String, selector: BottlerocketNodeSelector },
    UpdateBottlerocketNodeStatus { source: String, selector: BottlerocketNodeSelector },
}

/// The text of an error: what failed, on which node, and why.
pub open spec fn error_message_view(what: Seq<char>, selector: BottlerocketNodeSelectorView, source: Seq<char>) -> Seq<char> {
    what + " ("@ + selector.node_name + ", "@ + selector.node_uid + "): "@ + source
}

impl BottlerocketNodeError {
    /// The human-readable description of the error.
    pub fn message(&self) -> (msg: String)
        ensures
            msg@ == (match self {
                BottlerocketNodeError::CreateBottlerocketNode { source, selector } =>
                    error_message_view("Unable to create BottlerocketNode"@, selector@, source@),
                BottlerocketNodeError::UpdateBottlerocketNodeStatus { source, selector } =>
                    error_message_view("Unable to update BottlerocketNode status"@, selector@, source@),
            }),
    {
        let (mut msg, source, selector) = match self {
            BottlerocketNodeError::CreateBottlerocketNode { source, selector } =>
                (owned("Unable to create BottlerocketNode"), source, selector),
            BottlerocketNodeError::UpdateBottlerocketNodeStatus { source, selector } =>
                (owned("Unable to update BottlerocketNode status"), source, selector),
        };
        msg.append(" (");
        msg.append(selector.node_name.as_str());
        msg.append(", ");
        msg.append(selector.node_uid.as_str());
        msg.append("): ");
        msg.append(source.as_str());
        msg
    }
}

/// What creating the object `node` for the node `selector` returns, given what
/// the Kubernetes API answered: the object, or the error with the API's message.
pub fn create_node_outcome(
    selector: &BottlerocketNodeSelector,
    node: BottlerocketNode,
    created: Result<(), String>,
) -> (res: Result<BottlerocketNode, BottlerocketNodeError>)
    ensures
        created is Ok ==> res == Ok::<BottlerocketNode, BottlerocketNodeError>(node),
        created matches Err(msg) ==> (res matches Err(BottlerocketNodeError::CreateBottlerocketNode { source, selector: s })
            && source@ == msg@ && s@ == selector@),
{
    match created {
        Ok(()) => Ok(node),
        Err(source) => Err(BottlerocketNodeError::CreateBottlerocketNode { source, selector: selector.clone() }),
    }
}

/// What updating the status of the node `selector` returns, given what the
/// Kubernetes API answered.
pub fn update_node_status_outcome(
    selector: &BottlerocketNodeSelector,
    updated: Result<(), String>,
) -> (res: Result<(), BottlerocketNodeError>)
    ensures
        updated is Ok ==> res is Ok,
        updated matches Err(msg) ==> (res matches Err(BottlerocketNodeError::UpdateBottlerocketNodeStatus { source, selector: s })
            && source@ == msg@ && s@ == selector@),
{
    match updated {
        Ok(()) => Ok(()),
        Err(source) => Err(BottlerocketNodeError::UpdateBottlerocketNodeStatus { source, selector: selector.clone() }),
    }
}

} // verus!
