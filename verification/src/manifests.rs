//! The Kubernetes objects that install the brupop API server: its service
//! account, its cluster role, the binding between the two, and its deployment.
//! Each object is modelled with the fields that the system sets; a field left
//! out of a model is unset in the object.
use vstd::prelude::*;

use crate::constants::{
    APP_COMPONENT, APP_MANAGED_BY, APP_PART_OF, BRUPOP, LABEL_COMPONENT, NAMESPACE,
};
use crate::meta::{empty_meta_view, owned, ObjectMeta, ObjectMetaView};

verus! {

/// Name of the service account that the API server runs as.
pub const BRUPOP_APISERVER_SERVICE_ACCOUNT: &'static str = "brupop-controller-service-account";

/// Name of the cluster role granted to the API server.
pub const BRUPOP_APISERVER_CLUSTER_ROLE: &'static str = "brupop-controller-role";

/// A Kubernetes service account.
#[derive(Debug, Clone, PartialEq, Eq)]
pub struct ServiceAccount {
    pub metadata: ObjectMeta,
}

/// One rule of a cluster role: the verbs allowed on the resources of the API groups.
#[derive(Debug, Clone, PartialEq, Eq)]
pub struct PolicyRule {
    pub api_groups: Option<Vec<String>>,
    pub resources: Option<Vec<String>>,
    pub verbs: Vec<String>,
}

/// The mathematical value of a `PolicyRule`.
pub struct PolicyRuleView {
    pub api_groups: Option<Seq<Seq<char>>>,
    pub resources: Option<Seq<Seq<char>>>,
    pub verbs: Seq<Seq<char>>,
}

impl DeepView for PolicyRule {
    type V = PolicyRuleView;

    open spec fn deep_view(&self) -> PolicyRuleView {
        PolicyRuleView {
            api_groups: self.api_groups.deep_view(),
            resources: self.resources.deep_view(),
            verbs: self.verbs.deep_view(),
        }
    }
}

/// A Kubernetes cluster role.
#[derive(Debug, Clone, PartialEq, Eq)]
pub struct ClusterRole {
    pub metadata: ObjectMeta,
    pub rules: Option<Vec<PolicyRule>>,
}

/// The role that a binding grants.
#[derive(Debug, Clone, PartialEq, Eq)]
pub struct RoleRef {
    pub api_group: String,
    pub kind: String,
    pub name: String,
}

/// One subject that a binding grants a role to.
#[derive(Debug, Clone, PartialEq, Eq)]
pub struct Subject {
    pub kind: String,
    pub name: String,
    pub namespace: Option<String>,
}

/// The mathematical value of a `Subject`.
pub struct SubjectView {
    pub kind: Seq<char>,
    pub name: Seq<char>,
    pub namespace: Option<Seq<char>>,
}

impl DeepView for Subject {
    type V = SubjectView;

    open spec fn deep_view(&self) -> SubjectView {
        SubjectView { kind: self.kind@, name: self.name@, namespace: self.namespace.deep_view() }
    }
}

/// A Kubernetes cluster role binding.
#[derive(Debug, Clone, PartialEq, Eq)]
pub struct ClusterRoleBinding {
    pub metadata: ObjectMeta,
    pub role_ref: RoleRef,
    pub subjects: Option<Vec<Subject>>,
}

/// A label selector that matches the objects carrying all the given labels.
#[derive(Debug, Clone, PartialEq, Eq)]
pub struct LabelSelector {
    pub match_labels: Option<Vec<(String, String)>>,
}

/// A value that is either an integer or a string.
#[derive(Debug, Clone, PartialEq, Eq)]
pub enum IntOrString {
    Int(i32),
    String(String),
}

/// The mathematical value of an `IntOrString`.
pub enum IntOrStringView {
    Int(i32),
    String(Seq<char>),
}

impl DeepView for IntOrString {
    type V = IntOrStringView;

    open spec fn deep_view(&self) -> IntOrStringView {
        match self {
            IntOrString::Int(i) => IntOrStringView::Int(*i),
            IntOrString::String(s) => IntOrStringView::String(s@),
        }
    }
}

/// The parameters of a rolling update.
#[derive(Debug, Clone, PartialEq, Eq)]
pub struct RollingUpdateDeployment {
    pub max_unavailable: Option<IntOrString>,
}

/// How a deployment replaces its pods.
#[derive(Debug, Clone, PartialEq, Eq)]
pub struct DeploymentStrategy {
    pub rolling_update: Option<RollingUpdateDeployment>,
}

/// One requirement on a node's labels: `key` related by `operator` to `values`.
#[derive(Debug, Clone, PartialEq, Eq)]
pub struct NodeSelectorRequirement {
    pub key: String,
    pub operator: String,
    pub values: Option<Vec<String>>,
}

/// The mathematical value of a `NodeSelectorRequirement`.
pub struct NodeSelectorRequirementView {
    pub key: Seq<char>,
    pub operator: Seq<char>,
    pub values: Option<Seq<Seq<char>>>,
}

impl DeepView for NodeSelectorRequirement {
    type V = NodeSelectorRequirementView;

    open spec fn deep_view(&self) -> NodeSelectorRequirementView {
        NodeSelectorRequirementView { key: self.key@, operator: self.operator@, values: self.values.deep_view() }
    }
}

/// A conjunction of requirements on a node.
#[derive(Debug, Clone, PartialEq, Eq)]
pub struct NodeSelectorTerm {
    pub match_expressions: Option<Vec<NodeSelectorRequirement>>,
}

impl DeepView for NodeSelectorTerm {
    type V = Option<Seq<NodeSelectorRequirementView>>;

    open spec fn deep_view(&self) -> Option<Seq<NodeSelectorRequirementView>> {
        self.match_expressions.deep_view()
    }
}

/// A disjunction of node selector terms.
#[derive(Debug, Clone, PartialEq, Eq)]
pub struct NodeSelector {
    pub node_selector_terms: Vec<NodeSelectorTerm>,
}

/// Where pods may be scheduled, by the labels of the nodes.
#[derive(Debug, Clone, PartialEq, Eq)]
pub struct NodeAffinity {
    pub required_during_scheduling_ignored_during_execution: Option<NodeSelector>,
}

/// The scheduling constraints of a pod.
#[derive(Debug, Clone, PartialEq, Eq)]
pub struct Affinity {
    pub node_affinity: Option<NodeAffinity>,
}

/// A port that a container exposes.
#[derive(Debug, Clone, PartialEq, Eq)]
pub struct ContainerPort {
    pub container_port: i32,
}

impl DeepView for ContainerPort {
    type V = i32;

    open spec fn deep_view(&self) -> i32 {
        self.container_port
    }
}

/// A container of a pod.
#[derive(Debug, Clone, PartialEq, Eq)]
pub struct Container {
    pub name: String,
    pub image: Option<String>,
    pub image_pull_policy: Option<String>,
    pub ports: Option<Vec<ContainerPort>>,
}

/// The mathematical value of a `Container`.
pub struct ContainerView {
    pub name: Seq<char>,
    pub image: Option<Seq<char>>,
    pub image_pull_policy: Option<Seq<char>>,
    pub ports: Option<Seq<i32>>,
}

impl DeepView for Container {
    type V = ContainerView;

    open spec fn deep_view(&self) -> ContainerView {
        ContainerView {
            name: self.name@,
            image: self.image.deep_view(),
            image_pull_policy: self.image_pull_policy.deep_view(),
            ports: self.ports.deep_view(),
        }
    }
}

/// A reference to a secret in the same namespace.
#[derive(Debug, Clone, PartialEq, Eq)]
pub struct LocalObjectReference {
    pub name: Option<String>,
}

impl DeepView for LocalObjectReference {
    type V = Option<Seq<char>>;

    open spec fn deep_view(&self) -> Option<Seq<char>> {
        self.name.deep_view()
    }
}

/// The specification of a pod.
#[derive(Debug, Clone, PartialEq, Eq)]
pub struct PodSpec {
    pub affinity: Option<Affinity>,
    pub containers: Vec<Container>,
    pub image_pull_secrets: Option<Vec<LocalObjectReference>>,
    pub service_account_name: Option<String>,
}

/// The pods that a deployment creates.
#[derive(Debug, Clone, PartialEq, Eq)]
pub struct PodTemplateSpec {
    pub metadata: Option<ObjectMeta>,
    pub spec: Option<PodSpec>,
}

/// The specification of a deployment.
#[derive(Debug, Clone, PartialEq, Eq)]
pub struct DeploymentSpec {
    pub replicas: Option<i32>,
    pub selector: LabelSelector,
    pub strategy: Option<DeploymentStrategy>,
    pub template: PodTemplateSpec,
}

/// A Kubernetes deployment.
#[derive(Debug, Clone, PartialEq, Eq)]
pub struct Deployment {
    pub metadata: ObjectMeta,
    pub spec: Option<DeploymentSpec>,
}

/// The mathematical value of a `PodSpec`.
pub struct PodSpecView {
    /// The node selector terms required of a node, when the pod has a node affinity.
    pub required_node_terms: Option<Option<Option<Seq<Option<Seq<NodeSelectorRequirementView>>>>>>,
    pub containers: Seq<ContainerView>,
    pub image_pull_secrets: Option<Seq<Option<Seq<char>>>>,
    pub service_account_name: Option<Seq<char>>,
}

impl DeepView for PodSpec {
    type V = PodSpecView;

    open spec fn deep_view(&self) -> PodSpecView {
        PodSpecView {
            required_node_terms: match &self.affinity {
                None => None,
                Some(a) => Some(match &a.node_affinity {
                    None => None,
                    Some(na) => Some(match &na.required_during_scheduling_ignored_during_execution {
                        None => None,
                        Some(sel) => Some(sel.node_selector_terms.deep_view()),
                    }),
                }),
            },
            containers: self.containers.deep_view(),
            image_pull_secrets: self.image_pull_secrets.deep_view(),
            service_account_name: self.service_account_name.deep_view(),
        }
    }
}

/// The mathematical value of a `Deployment` whose spec is set.
pub struct DeploymentView {
    pub metadata: ObjectMetaView,
    pub replicas: Option<i32>,
    pub selector_labels: Option<Seq<(Seq<char>, Seq<char>)>>,
    pub max_unavailable: Option<Option<Option<IntOrStringView>>>,
    pub template_metadata: Option<ObjectMetaView>,
    pub pod_spec: Option<PodSpecView>,
}

impl DeploymentSpec {
    /// The mathematical value of the deployment made of `metadata` and this spec.
    pub open spec fn view_with(&self, metadata: ObjectMetaView) -> DeploymentView {
        DeploymentView {
            metadata,
            replicas: self.replicas,
            selector_labels: self.selector.match_labels.deep_view(),
            max_unavailable: match &self.strategy {
                None => None,
                Some(st) => Some(match &st.rolling_update {
                    None => None,
                    Some(ru) => Some(ru.max_unavailable.deep_view()),
                }),
            },
            template_metadata: match &self.template.metadata {
                None => None,
                Some(m) => Some(m@),
            },
            pod_spec: self.template.spec.deep_view(),
        }
    }
}

impl DeepView for Deployment {
    type V = Option<DeploymentView>;

    open spec fn deep_view(&self) -> Option<DeploymentView> {
        match &self.spec {
            None => None,
            Some(s) => Some(s.view_with(self.metadata@)),
        }
    }
}

/// Metadata that sets only a name and a namespace.
pub open spec fn named_meta_view(name: Seq<char>, namespace: Seq<char>) -> ObjectMetaView {
    ObjectMetaView { name: Some(name), namespace: Some(namespace), ..empty_meta_view() }
}

/// The service account of the API server.
pub open spec fn apiserver_service_account_view() -> ObjectMetaView {
    ObjectMetaView {
        annotations: Some(seq![("kubernetes.io/service-account.name"@, BRUPOP_APISERVER_SERVICE_ACCOUNT@)]),
        ..named_meta_view(BRUPOP_APISERVER_SERVICE_ACCOUNT@, NAMESPACE@)
    }
}

/// The rules of the API server's cluster role: full use of BottlerocketNode
/// objects and their status, and management of deployments.
pub open spec fn apiserver_policy_rules_view() -> Seq<PolicyRuleView> {
    seq![
        PolicyRuleView {
            api_groups: Some(seq![BRUPOP@]),
            resources: Some(seq!["bottlerocketnodes"@, "bottlerocketnodes/status"@]),
            verbs: seq!["create"@, "get"@, "list"@, "patch"@, "update"@, "watch"@],
        },
        PolicyRuleView {
            api_groups: Some(seq!["apps"@]),
            resources: Some(seq!["deployments"@]),
            verbs: seq!["create"@, "delete"@, "deletecollection"@, "get"@, "list"@, "patch"@, "update"@],
        },
    ]
}

/// Name of the binding between the API server's role and service account.
pub open spec fn apiserver_role_binding_name() -> Seq<char> {
    "brupop-apiserver-role-binding"@
}

/// The labels of the API server's deployment, in ascending key order.
pub open spec fn apiserver_deployment_labels() -> Seq<(Seq<char>, Seq<char>)> {
    seq![
        (APP_COMPONENT@, "apiserver"@),
        (APP_MANAGED_BY@, "brupop"@),
        (APP_PART_OF@, "brupop"@),
        (LABEL_COMPONENT@, "apiserver"@),
    ]
}

/// The labels by which the API server's deployment selects its pods.
pub open spec fn apiserver_pod_labels() -> Seq<(Seq<char>, Seq<char>)> {
    seq![(LABEL_COMPONENT@, "apiserver"@)]
}

/// The node requirements of the API server's pods: Linux, on amd64 or arm64.
pub open spec fn apiserver_node_requirements() -> Seq<NodeSelectorRequirementView> {
    seq![
        NodeSelectorRequirementView { key: "kubernetes.io/os"@, operator: "In"@, values: Some(seq!["linux"@]) },
        NodeSelectorRequirementView {
            key: "kubernetes.io/arch"@,
            operator: "In"@,
            values: Some(seq!["amd64"@, "arm64"@]),
        },
    ]
}

/// The deployment of the API server that runs `image`, pulled with the secret
/// `pull_secret` if one is given.
pub open spec fn apiserver_deployment_view(image: Seq<char>, pull_secret: Option<Seq<char>>) -> DeploymentView {
    DeploymentView {
        metadata: ObjectMetaView {
            labels: Some(apiserver_deployment_labels()),
            ..named_meta_view("brupop-apiserver"@, NAMESPACE@)
        },
        replicas: Some(3),
        selector_labels: Some(apiserver_pod_labels()),
        max_unavailable: Some(Some(Some(IntOrStringView::String("33%"@)))),
        template_metadata: Some(ObjectMetaView {
            labels: Some(apiserver_pod_labels()),
            namespace: Some(NAMESPACE@),
            ..empty_meta_view()
        }),
        pod_spec: Some(PodSpecView {
            required_node_terms: Some(Some(Some(seq![Some(apiserver_node_requirements())]))),
            containers: seq![ContainerView {
                name: "apiserver"@,
                image: Some(image),
                image_pull_policy: None,
                ports: Some(seq![8080i32]),
            }],
            image_pull_secrets: match pull_secret {
                None => None,
                Some(s) => Some(seq![Some(s)]),
            },
            service_account_name: Some(BRUPOP_APISERVER_SERVICE_ACCOUNT@),
        }),
    }
}

/// Defines the brupop-apiserver service account.
pub fn apiserver_service_account() -> (account: ServiceAccount)
    ensures
        account.metadata@ == apiserver_service_account_view(),
{
    let mut metadata = ObjectMeta::empty();
    metadata.name = Some(owned(BRUPOP_APISERVER_SERVICE_ACCOUNT));
    metadata.namespace = Some(owned(NAMESPACE));
    metadata.annotations = Some(vec![
        (owned("kubernetes.io/service-account.name"), owned(BRUPOP_APISERVER_SERVICE_ACCOUNT)),
    ]);
    let account = ServiceAccount { metadata };
    assert(account.metadata@.annotations->0 =~= apiserver_service_account_view().annotations->0);
    account
}

fn owned_all(items: &[&str]) -> (res: Vec<String>)
    ensures
        res.deep_view() == items@.map_values(|s: &str| s@),
{
    let mut res: Vec<String> = Vec::new();
    for i in 0..items.len()
        invariant
            res.len() == i,
            forall|j: int| 0 <= j < i ==> #[trigger] res@[j]@ == items@[j]@,
    {
        res.push(owned(items[i]));
    }
    assert(res.deep_view() =~= items@.map_values(|s: &str| s@));
    res
}

/// Defines the brupop-apiserver cluster role.
pub fn apiserver_cluster_role() -> (role: ClusterRole)
    ensures
        role.metadata@ == named_meta_view(BRUPOP_APISERVER_CLUSTER_ROLE@, NAMESPACE@),
        role.rules.deep_view() == Some(apiserver_policy_rules_view()),
{
    let mut metadata = ObjectMeta::empty();
    metadata.name = Some(owned(BRUPOP_APISERVER_CLUSTER_ROLE));
    metadata.namespace = Some(owned(NAMESPACE));
    let node_verbs = ["create", "get", "list", "patch", "update", "watch"];
    let node_rule = PolicyRule {
        api_groups: Some(vec![owned(BRUPOP)]),
        resources: Some(vec![owned("bottlerocketnodes"), owned("bottlerocketnodes/status")]),
        verbs: owned_all(&node_verbs),
    };
    let deployment_verbs = ["create", "delete", "deletecollection", "get", "list", "patch", "update"];
    let deployment_rule = PolicyRule {
        api_groups: Some(vec![owned("apps")]),
        resources: Some(vec![owned("deployments")]),
        verbs: owned_all(&deployment_verbs),
    };
    let ghost expected = apiserver_policy_rules_view();
    assert(node_rule.api_groups.deep_view()->0 =~= expected[0].api_groups->0);
    assert(node_rule.resources.deep_view()->0 =~= expected[0].resources->0);
    assert(node_rule.verbs.deep_view() =~= expected[0].verbs);
    assert(deployment_rule.api_groups.deep_view()->0 =~= expected[1].api_groups->0);
    assert(deployment_rule.resources.deep_view()->0 =~= expected[1].resources->0);
    assert(deployment_rule.verbs.deep_view() =~= expected[1].verbs);
    let role = ClusterRole { metadata, rules: Some(vec![node_rule, deployment_rule]) };
    assert(role.rules.deep_view()->0 =~= expected);
    role
}

/// Defines the brupop-apiserver cluster role binding.
pub fn apiserver_cluster_role_binding() -> (binding: ClusterRoleBinding)
    ensures
        binding.metadata@ == named_meta_view(apiserver_role_binding_name(), NAMESPACE@),
        binding.role_ref.api_group@ == "rbac.authorization.k8s.io"@,
        binding.role_ref.kind@ == "ClusterRole"@,
        binding.role_ref.name@ == BRUPOP_APISERVER_CLUSTER_ROLE@,
        binding.subjects.deep_view() == Some(seq![SubjectView {
            kind: "ServiceAccount"@,
            name: BRUPOP_APISERVER_SERVICE_ACCOUNT@,
            namespace: Some(NAMESPACE@),
        }]),
{
    let mut metadata = ObjectMeta::empty();
    metadata.name = Some(owned("brupop-apiserver-role-binding"));
    metadata.namespace = Some(owned(NAMESPACE));
    let subject = Subject {
        kind: owned("ServiceAccount"),
        name: owned(BRUPOP_APISERVER_SERVICE_ACCOUNT),
        namespace: Some(owned(NAMESPACE)),
    };
    let binding = ClusterRoleBinding {
        metadata,
        role_ref: RoleRef {
            api_group: owned("rbac.authorization.k8s.io"),
            kind: owned("ClusterRole"),
            name: owned(BRUPOP_APISERVER_CLUSTER_ROLE),
        },
        subjects: Some(vec![subject]),
    };
    assert(binding.subjects.deep_view()->0 =~= seq![SubjectView {
        kind: "ServiceAccount"@,
        name: BRUPOP_APISERVER_SERVICE_ACCOUNT@,
        namespace: Some(NAMESPACE@),
    }]);
    binding
}

fn pod_labels() -> (labels: Vec<(String, String)>)
    ensures
        labels.deep_view() == apiserver_pod_labels(),
{
    let labels = vec![(owned(LABEL_COMPONENT), owned("apiserver"))];
    assert(labels.deep_view() =~= apiserver_pod_labels());
    labels
}

fn node_requirements() -> (reqs: Vec<NodeSelectorRequirement>)
    ensures
        reqs.deep_view() == apiserver_node_requirements(),
{
    let os = NodeSelectorRequirement {
        key: owned("kubernetes.io/os"),
        operator: owned("In"),
        values: Some(vec![owned("linux")]),
    };
    let arch = NodeSelectorRequirement {
        key: owned("kubernetes.io/arch"),
        operator: owned("In"),
        values: Some(vec![owned("amd64"), owned("arm64")]),
    };
    let ghost expected = apiserver_node_requirements();
    assert(os.values.deep_view()->0 =~= expected[0].values->0);
    assert(arch.values.deep_view()->0 =~= expected[1].values->0);
    let reqs = vec![os, arch];
    assert(reqs.deep_view() =~= expected);
    reqs
}

/// Defines the brupop-apiserver deployment, running `apiserver_image` and
/// pulling it with `image_pull_secret` when one is given.
pub fn apiserver_deployment(apiserver_image: String, image_pull_secret: Option<String>) -> (deployment: Deployment)
    ensures
        deployment.deep_view() == Some(apiserver_deployment_view(apiserver_image@, image_pull_secret.deep_view())),
        deployment.spec matches Some(spec) && spec.template.spec matches Some(pod) && {
            &&& pod.containers@.len() == 1
            &&& pod.containers@[0].image.deep_view() == Some(apiserver_image@)
            &&& pod.affinity matches Some(a) && a.node_affinity matches Some(na)
                && na.required_during_scheduling_ignored_during_execution matches Some(sel)
                && sel.node_selector_terms@.len() == 1
                && sel.node_selector_terms@[0].match_expressions.deep_view() == Some(seq![
                    NodeSelectorRequirementView { key: "kubernetes.io/os"@, operator: "In"@, values: Some(seq!["linux"@]) },
                    NodeSelectorRequirementView {
                        key: "kubernetes.io/arch"@,
                        operator: "In"@,
                        values: Some(seq!["amd64"@, "arm64"@]),
                    },
                ])
        },
{
    let ghost image = apiserver_image@;
    let ghost secret = image_pull_secret.deep_view();
    let image_pull_secrets = match image_pull_secret {
        Some(secret) => Some(vec![LocalObjectReference { name: Some(secret) }]),
        None => None,
    };

    let mut metadata = ObjectMeta::empty();
    let labels = vec![
        (owned(APP_COMPONENT), owned("apiserver")),
        (owned(APP_MANAGED_BY), owned("brupop")),
        (owned(APP_PART_OF), owned("brupop")),
        (owned(LABEL_COMPONENT), owned("apiserver")),
    ];
    assert(labels.deep_view() =~= apiserver_deployment_labels());
    metadata.labels = Some(labels);
    metadata.name = Some(owned("brupop-apiserver"));
    metadata.namespace = Some(owned(NAMESPACE));

    let mut template_metadata = ObjectMeta::empty();
    template_metadata.labels = Some(pod_labels());
    template_metadata.namespace = Some(owned(NAMESPACE));

    let term = NodeSelectorTerm { match_expressions: Some(node_requirements()) };
    let terms = vec![term];
    assert(terms.deep_view() =~= seq![Some(apiserver_node_requirements())]);
    let affinity = Affinity {
        node_affinity: Some(NodeAffinity {
            required_during_scheduling_ignored_during_execution: Some(NodeSelector { node_selector_terms: terms }),
        }),
    };

    let ports = vec![ContainerPort { container_port: 8080 }];
    assert(ports.deep_view() =~= seq![8080i32]);
    let container = Container {
        name: owned("apiserver"),
        image: Some(apiserver_image),
        image_pull_policy: None,
        ports: Some(ports),
    };
    let containers = vec![container];
    assert(containers.deep_view() =~= seq![ContainerView {
        name: "apiserver"@,
        image: Some(image),
        image_pull_policy: None,
        ports: Some(seq![8080i32]),
    }]);
    assert(image_pull_secrets.deep_view() == (match secret {
        None => None,
        Some(s) => Some(seq![Some(s)]),
    })) by {
        if image_pull_secrets is Some {
            assert(image_pull_secrets.deep_view()->0 =~= seq![Some(secret->0)]);
        }
    }

    let pod_spec = PodSpec {
        affinity: Some(affinity),
        containers,
        image_pull_secrets,
        service_account_name: Some(owned(BRUPOP_APISERVER_SERVICE_ACCOUNT)),
    };

    let spec = DeploymentSpec {
        replicas: Some(3),
        selector: LabelSelector { match_labels: Some(pod_labels()) },
        strategy: Some(DeploymentStrategy {
            rolling_update: Some(RollingUpdateDeployment { max_unavailable: Some(IntOrString::String(owned("33%"))) }),
        }),
        template: PodTemplateSpec { metadata: Some(template_metadata), spec: Some(pod_spec) },
    };
    Deployment { metadata, spec: Some(spec) }
}

/// The binding grants the API server's cluster role to the API server's
/// service account, and the deployment runs its pods under that account, so
/// the pods have the role's rights; all four objects live in `NAMESPACE`.
pub proof fn lemma_apiserver_objects_fit_together(
    account: ServiceAccount,
    role: ClusterRole,
    binding: ClusterRoleBinding,
    deployment: Deployment,
    image: Seq<char>,
    pull_secret: Option<Seq<char>>,
)
    requires
        account.metadata@ == apiserver_service_account_view(),
        role.metadata@ == named_meta_view(BRUPOP_APISERVER_CLUSTER_ROLE@, NAMESPACE@),
        binding.metadata@ == named_meta_view(apiserver_role_binding_name(), NAMESPACE@),
        binding.role_ref.kind@ == "ClusterRole"@,
        binding.role_ref.name@ == BRUPOP_APISERVER_CLUSTER_ROLE@,
        binding.subjects.deep_view() == Some(seq![SubjectView {
            kind: "ServiceAccount"@,
            name: BRUPOP_APISERVER_SERVICE_ACCOUNT@,
            namespace: Some(NAMESPACE@),
        }]),
        deployment.deep_view() == Some(apiserver_deployment_view(image, pull_secret)),
    ensures
        Some(binding.role_ref.name@) == role.metadata@.name,
        binding.subjects.deep_view() matches Some(subjects) && subjects.len() == 1
            && Some(subjects[0].name) == account.metadata@.name
            && subjects[0].namespace == account.metadata@.namespace,
        deployment.deep_view() matches Some(d) && d.pod_spec matches Some(pod)
            && pod.service_account_name == account.metadata@.name,
        account.metadata@.namespace == Some(NAMESPACE@),
        role.metadata@.namespace == Some(NAMESPACE@),
        binding.metadata@.namespace == Some(NAMESPACE@),
        deployment.metadata@.namespace == Some(NAMESPACE@),
{
}

/// Every label by which the API server's deployment selects its pods is a
/// label of the pods that it creates, so the deployment owns its pods.
pub proof fn lemma_apiserver_selector_matches_template(image: Seq<char>, pull_secret: Option<Seq<char>>)
    ensures
        ({
            let d = apiserver_deployment_view(image, pull_secret);
            &&& d.selector_labels matches Some(selector)
            &&& d.template_metadata matches Some(meta)
            &&& meta.labels matches Some(labels)
            &&& forall|i: int| 0 <= i < selector.len() ==> labels.contains(#[trigger] selector[i])
        }),
{
    let labels = apiserver_pod_labels();
    assert forall|i: int| 0 <= i < labels.len() implies labels.contains(#[trigger] labels[i]) by {
        assert(labels[i] == labels[i]);
    }
}

/// The API server's pods run the given image in their one container, named
/// `apiserver` and listening on port 8080, under the API server's service
/// account; the pull secret, when given, is the pods' only image pull secret,
/// and it has no bearing on the image.
pub proof fn lemma_apiserver_deployment_runs_image(image: Seq<char>, pull_secret: Option<Seq<char>>)
    ensures
        apiserver_deployment_view(image, pull_secret).pod_spec matches Some(pod) && {
            &&& pod.containers.len() == 1
            &&& pod.containers[0].name == "apiserver"@
            &&& pod.containers[0].image == Some(image)
            &&& pod.containers[0].ports == Some(seq![8080i32])
            &&& pod.service_account_name == Some(BRUPOP_APISERVER_SERVICE_ACCOUNT@)
            &&& pull_secret is None ==> pod.image_pull_secrets is None
            &&& pull_secret matches Some(s) ==> pod.image_pull_secrets == Some(seq![Some(s)])
        },
{
}

/// Whatever the image and the pull secret, the API server's pods may only be
/// scheduled on Linux nodes of architecture amd64 or arm64.
pub proof fn lemma_apiserver_pods_need_linux_amd64_or_arm64(image: Seq<char>, pull_secret: Option<Seq<char>>)
    ensures
        apiserver_deployment_view(image, pull_secret).pod_spec matches Some(pod)
            && pod.required_node_terms == Some(Some(Some(seq![Some(seq![
                NodeSelectorRequirementView { key: "kubernetes.io/os"@, operator: "In"@, values: Some(seq!["linux"@]) },
                NodeSelectorRequirementView {
                    key: "kubernetes.io/arch"@,
                    operator: "In"@,
                    values: Some(seq!["amd64"@, "arm64"@]),
                },
            ])]))),
{
}

/// Two deployments that differ only in the pull secret differ only in their
/// image pull secrets: the same metadata, replicas, selector, strategy,
/// template metadata, containers, node requirements and service account.
pub proof fn lemma_pull_secret_changes_only_pull_secrets(
    image: Seq<char>,
    first: Option<Seq<char>>,
    second: Option<Seq<char>>,
)
    ensures
        ({
            let a = apiserver_deployment_view(image, first);
            let b = apiserver_deployment_view(image, second);
            &&& a.metadata == b.metadata
            &&& a.replicas == b.replicas
            &&& a.selector_labels == b.selector_labels
            &&& a.max_unavailable == b.max_unavailable
            &&& a.template_metadata == b.template_metadata
            &&& a.pod_spec matches Some(pa) && b.pod_spec matches Some(pb)
                && pa.containers == pb.containers
                && pa.required_node_terms == pb.required_node_terms
                && pa.service_account_name == pb.service_account_name
        }),
{
}

/// Two deployments that differ only in the image differ only in the image of
/// their container: in particular the node requirements do not depend on it.
pub proof fn lemma_image_changes_only_container_image(
    first: Seq<char>,
    second: Seq<char>,
    pull_secret: Option<Seq<char>>,
)
    ensures
        ({
            let a = apiserver_deployment_view(first, pull_secret);
            let b = apiserver_deployment_view(second, pull_secret);
            &&& a.metadata == b.metadata
            &&& a.replicas == b.replicas
            &&& a.selector_labels == b.selector_labels
            &&& a.max_unavailable == b.max_unavailable
            &&& a.template_metadata == b.template_metadata
            &&& a.pod_spec matches Some(pa) && b.pod_spec matches Some(pb)
                && pa.required_node_terms == pb.required_node_terms
                && pa.image_pull_secrets == pb.image_pull_secrets
                && pa.service_account_name == pb.service_account_name
                && pa.containers.len() == pb.containers.len()
                && pa.containers[0].name == pb.containers[0].name
                && pa.containers[0].ports == pb.containers[0].ports
        }),
{
}

} // verus!
