use vstd::prelude::*;

verus! {

/// The base domain-like name of the system.
pub const BRUPOP: &'static str = "brupop.bottlerocket.aws";

/// The API version of the custom resources, `BRUPOP` followed by `/v1`.
pub const API_VERSION: &'static str = "brupop.bottlerocket.aws/v1";

/// The namespace that holds every object of the system.
pub const NAMESPACE: &'static str = "brupop-bottlerocket-aws";

/// Label key naming the component of the system, `BRUPOP` followed by `/component`.
pub const LABEL_COMPONENT: &'static str = "brupop.bottlerocket.aws/component";

/// Standard label key: the name of the application.
pub const APP_NAME: &'static str = "app.kubernetes.io/name";

/// Standard label key: the instance of the application.
pub const APP_INSTANCE: &'static str = "app.kubernetes.io/instance";

/// Standard label key: the component within the architecture.
pub const APP_COMPONENT: &'static str = "app.kubernetes.io/component";

/// Standard label key: the higher-level application this one is part of.
pub const APP_PART_OF: &'static str = "app.kubernetes.io/part-of";

/// Standard label key: the tool that manages the application.
pub const APP_MANAGED_BY: &'static str = "app.kubernetes.io/managed-by";

/// Standard label key: the controller or user that created the resource.
pub const APP_CREATED_BY: &'static str = "app.kubernetes.io/created-by";

/// How long the agent waits between two passes of its loop, in milliseconds.
pub const AGENT_SLEEP_MILLIS: u64 = 5000;

/// How long the controller waits between two passes of its loop, in milliseconds.
pub const CONTROLLER_SLEEP_MILLIS: u64 = 5000;

/// The API version and the component label key are the base name, a slash and a suffix.
pub proof fn lemma_names_extend_base_name()
    ensures
        API_VERSION@ == BRUPOP@ + "/"@ + "v1"@,
        LABEL_COMPONENT@ == BRUPOP@ + "/"@ + "component"@,
{
    reveal_strlit("brupop.bottlerocket.aws");
    reveal_strlit("brupop.bottlerocket.aws/v1");
    reveal_strlit("brupop.bottlerocket.aws/component");
    reveal_strlit("/");
    reveal_strlit("v1");
    reveal_strlit("component");
    assert(API_VERSION@ =~= BRUPOP@ + "/"@ + "v1"@);
    assert(LABEL_COMPONENT@ =~= BRUPOP@ + "/"@ + "component"@);
}

} // verus!
