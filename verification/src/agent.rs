//! The decisions of the agent that runs on every Bottlerocket node.
use vstd::prelude::*;

verus! {

/// The agent of one node.
#[derive(Debug)]
pub struct BrupopAgent {}

/// What the agent knows of its node's system.
#[derive(Debug, PartialEq, Eq)]
pub struct BottlerocketNodeMetadata {
    pub current_version: String,
}

impl View for BottlerocketNodeMetadata {
    type V = Seq<char>;

    open spec fn view(&self) -> Seq<char> {
        self.current_version@
    }
}

impl Default for BottlerocketNodeMetadata {
    fn default() -> (metadata: Self)
        ensures
            metadata@ == Seq::<char>::empty(),
    {
        BottlerocketNodeMetadata { current_version: String::new() }
    }
}

/// What one pass of the agent's loop does about the node's custom resource.
#[derive(Debug, PartialEq, Eq)]
pub enum MetadataAction {
    /// The stored metadata has drifted: write this metadata to the custom resource.
    UpdateCustomResource(BottlerocketNodeMetadata),
    /// The stored metadata is current: leave the custom resource alone.
    NoChange,
}

/// The metadata that a pass writes, given the system's `current` metadata and
/// the `stored` one: the current metadata when the two differ, none otherwise.
pub open spec fn metadata_write(current: Seq<char>, stored: Seq<char>) -> Option<Seq<char>> {
    if current != stored {
        Some(current)
    } else {
        None
    }
}

/// The stored metadata after a pass that wrote `write` over `stored`.
pub open spec fn stored_after(stored: Seq<char>, write: Option<Seq<char>>) -> Seq<char> {
    match write {
        Some(m) => m,
        None => stored,
    }
}

impl MetadataAction {
    /// The metadata that the action writes, if any.
    pub open spec fn written(&self) -> Option<Seq<char>> {
        match self {
            MetadataAction::UpdateCustomResource(m) => Some(m@),
            MetadataAction::NoChange => None,
        }
    }
}

impl BrupopAgent {
    /// A new agent.
    pub fn new() -> BrupopAgent {
        BrupopAgent {}
    }

    /// The decision of one pass of the agent's loop: update the node's custom
    /// resource with the `current` system metadata if it differs from the
    /// `stored` one, else leave it.
    pub fn metadata_action(
        &self,
        current: BottlerocketNodeMetadata,
        stored: &BottlerocketNodeMetadata,
    ) -> (action: MetadataAction)
        ensures
            action.written() == metadata_write(current@, stored@),
    {
        if current.current_version != stored.current_version {
            MetadataAction::UpdateCustomResource(current)
        } else {
            MetadataAction::NoChange
        }
    }
}

/// One pass brings the stored metadata to the current one, and a pass after
/// it, on unchanged system metadata, writes nothing.
pub proof fn lemma_metadata_sync_converges(current: Seq<char>, stored: Seq<char>)
    ensures
        stored_after(stored, metadata_write(current, stored)) == current,
        metadata_write(current, stored_after(stored, metadata_write(current, stored))) is None,
{
}

} // verus!
