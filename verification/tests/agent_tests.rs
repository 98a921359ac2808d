use brupop::agent::{BottlerocketNodeMetadata, BrupopAgent, MetadataAction};
use brupop::constants::{AGENT_SLEEP_MILLIS, API_VERSION, BRUPOP, CONTROLLER_SLEEP_MILLIS, LABEL_COMPONENT};
use brupop::controller::BrupopController;

fn metadata(v: &str) -> BottlerocketNodeMetadata {
    BottlerocketNodeMetadata { current_version: v.to_string() }
}

#[test]
fn drift_asks_for_an_update_with_current_metadata() {
    let agent = BrupopAgent::new();
    let action = agent.metadata_action(metadata("1.1.0"), &metadata("1.0.0"));
    assert_eq!(action, MetadataAction::UpdateCustomResource(metadata("1.1.0")));
}

#[test]
fn no_drift_leaves_the_resource() {
    let agent = BrupopAgent::new();
    assert_eq!(agent.metadata_action(metadata("1.0.0"), &metadata("1.0.0")), MetadataAction::NoChange);
    assert_eq!(
        agent.metadata_action(BottlerocketNodeMetadata::default(), &BottlerocketNodeMetadata::default()),
        MetadataAction::NoChange
    );
}

#[test]
fn second_pass_after_an_update_changes_nothing() {
    let agent = BrupopAgent::new();
    let mut stored = metadata("1.0.0");
    if let MetadataAction::UpdateCustomResource(m) = agent.metadata_action(metadata("2.0.0"), &stored) {
        stored = m;
    }
    assert_eq!(stored, metadata("2.0.0"));
    assert_eq!(agent.metadata_action(metadata("2.0.0"), &stored), MetadataAction::NoChange);
}

#[test]
fn constants_extend_the_base_name() {
    assert_eq!(API_VERSION, format!("{}/v1", BRUPOP));
    assert_eq!(LABEL_COMPONENT, format!("{}/component", BRUPOP));
    assert_eq!(AGENT_SLEEP_MILLIS, 5000);
    assert_eq!(CONTROLLER_SLEEP_MILLIS, 5000);
    let _controller = BrupopController::new();
}
