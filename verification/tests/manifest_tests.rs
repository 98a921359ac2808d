use brupop::constants::{BRUPOP, LABEL_COMPONENT, NAMESPACE};
use brupop::manifests::{
    apiserver_cluster_role, apiserver_cluster_role_binding, apiserver_deployment,
    apiserver_service_account, IntOrString, BRUPOP_APISERVER_CLUSTER_ROLE,
    BRUPOP_APISERVER_SERVICE_ACCOUNT,
};

fn strings(items: &[&str]) -> Vec<String> {
    items.iter().map(|s| s.to_string()).collect()
}

#[test]
fn service_account_is_named_and_annotated() {
    let sa = apiserver_service_account();
    assert_eq!(sa.metadata.name, Some("brupop-controller-service-account".to_string()));
    assert_eq!(sa.metadata.namespace, Some("brupop-bottlerocket-aws".to_string()));
    assert_eq!(
        sa.metadata.annotations,
        Some(vec![(
            "kubernetes.io/service-account.name".to_string(),
            "brupop-controller-service-account".to_string()
        )])
    );
    assert_eq!(sa.metadata.labels, None);
}

#[test]
fn cluster_role_rules() {
    let role = apiserver_cluster_role();
    assert_eq!(role.metadata.name, Some("brupop-controller-role".to_string()));
    assert_eq!(role.metadata.namespace, Some(NAMESPACE.to_string()));
    let rules = role.rules.unwrap();
    assert_eq!(rules.len(), 2);
    assert_eq!(rules[0].api_groups, Some(strings(&["brupop.bottlerocket.aws"])));
    assert_eq!(rules[0].resources, Some(strings(&["bottlerocketnodes", "bottlerocketnodes/status"])));
    assert_eq!(rules[0].verbs, strings(&["create", "get", "list", "patch", "update", "watch"]));
    assert_eq!(rules[1].api_groups, Some(strings(&["apps"])));
    assert_eq!(rules[1].resources, Some(strings(&["deployments"])));
    assert_eq!(
        rules[1].verbs,
        strings(&["create", "delete", "deletecollection", "get", "list", "patch", "update"])
    );
}

#[test]
fn binding_grants_role_to_service_account() {
    let binding = apiserver_cluster_role_binding();
    let role = apiserver_cluster_role();
    let sa = apiserver_service_account();
    assert_eq!(binding.metadata.name, Some("brupop-apiserver-role-binding".to_string()));
    assert_eq!(binding.role_ref.api_group, "rbac.authorization.k8s.io");
    assert_eq!(binding.role_ref.kind, "ClusterRole");
    assert_eq!(Some(binding.role_ref.name.clone()), role.metadata.name);
    let subjects = binding.subjects.unwrap();
    assert_eq!(subjects.len(), 1);
    assert_eq!(subjects[0].kind, "ServiceAccount");
    assert_eq!(Some(subjects[0].name.clone()), sa.metadata.name);
    assert_eq!(subjects[0].namespace, sa.metadata.namespace);
    assert_eq!(BRUPOP_APISERVER_CLUSTER_ROLE, "brupop-controller-role");
}

#[test]
fn deployment_without_pull_secret() {
    let d = apiserver_deployment("example.com/apiserver:v1".to_string(), None);
    assert_eq!(d.metadata.name, Some("brupop-apiserver".to_string()));
    assert_eq!(d.metadata.namespace, Some(NAMESPACE.to_string()));
    assert_eq!(
        d.metadata.labels,
        Some(vec![
            ("app.kubernetes.io/component".to_string(), "apiserver".to_string()),
            ("app.kubernetes.io/managed-by".to_string(), "brupop".to_string()),
            ("app.kubernetes.io/part-of".to_string(), "brupop".to_string()),
            ("brupop.bottlerocket.aws/component".to_string(), "apiserver".to_string()),
        ])
    );
    let spec = d.spec.unwrap();
    assert_eq!(spec.replicas, Some(3));
    assert_eq!(
        spec.selector.match_labels,
        Some(vec![(LABEL_COMPONENT.to_string(), "apiserver".to_string())])
    );
    let max_unavailable = spec.strategy.unwrap().rolling_update.unwrap().max_unavailable;
    assert_eq!(max_unavailable, Some(IntOrString::String("33%".to_string())));
    let template_meta = spec.template.metadata.unwrap();
    assert_eq!(template_meta.labels, spec.selector.match_labels);
    assert_eq!(template_meta.namespace, Some(NAMESPACE.to_string()));
    let pod = spec.template.spec.unwrap();
    assert_eq!(pod.containers.len(), 1);
    assert_eq!(pod.containers[0].name, "apiserver");
    assert_eq!(pod.containers[0].image, Some("example.com/apiserver:v1".to_string()));
    assert_eq!(pod.containers[0].image_pull_policy, None);
    assert_eq!(pod.containers[0].ports.as_ref().unwrap()[0].container_port, 8080);
    assert_eq!(pod.image_pull_secrets, None);
    assert_eq!(pod.service_account_name, Some(BRUPOP_APISERVER_SERVICE_ACCOUNT.to_string()));
    let terms = pod.affinity.unwrap().node_affinity.unwrap()
        .required_during_scheduling_ignored_during_execution.unwrap().node_selector_terms;
    assert_eq!(terms.len(), 1);
    let reqs = terms[0].match_expressions.clone().unwrap();
    assert_eq!(reqs.len(), 2);
    assert_eq!(reqs[0].key, "kubernetes.io/os");
    assert_eq!(reqs[0].operator, "In");
    assert_eq!(reqs[0].values, Some(strings(&["linux"])));
    assert_eq!(reqs[1].key, "kubernetes.io/arch");
    assert_eq!(reqs[1].operator, "In");
    assert_eq!(reqs[1].values, Some(strings(&["amd64", "arm64"])));
}

#[test]
fn deployment_with_pull_secret() {
    let d = apiserver_deployment("img".to_string(), Some("regcred".to_string()));
    let pod = d.spec.unwrap().template.spec.unwrap();
    let secrets = pod.image_pull_secrets.unwrap();
    assert_eq!(secrets.len(), 1);
    assert_eq!(secrets[0].name, Some("regcred".to_string()));
}

#[test]
fn all_objects_live_in_the_namespace() {
    let ns = Some("brupop-bottlerocket-aws".to_string());
    assert_eq!(apiserver_service_account().metadata.namespace, ns);
    assert_eq!(apiserver_cluster_role().metadata.namespace, ns);
    assert_eq!(apiserver_cluster_role_binding().metadata.namespace, ns);
    assert_eq!(apiserver_deployment("img".to_string(), None).metadata.namespace, ns);
    assert_eq!(BRUPOP, "brupop.bottlerocket.aws");
}
