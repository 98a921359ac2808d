//! Plain-value models of the Kubernetes object metadata that the system writes.
use vstd::prelude::*;

verus! {

/// A reference from an object to the object that owns it.
#[derive(Debug, Clone, PartialEq, Eq)]
pub struct OwnerReference {
    pub api_version: String,
    pub kind: String,
    pub name: String,
    pub uid: String,
    pub controller: Option<bool>,
    pub block_owner_deletion: Option<bool>,
}

/// The mathematical value of an `OwnerReference`.
pub struct OwnerReferenceView {
    pub api_version: Seq<char>,
    pub kind: Seq<char>,
    pub name: Seq<char>,
    pub uid: Seq<char>,
    pub controller: Option<bool>,
    pub block_owner_deletion: Option<bool>,
}

impl View for OwnerReference {
    type V = OwnerReferenceView;

    open spec fn view(&self) -> OwnerReferenceView {
        OwnerReferenceView {
            api_version: self.api_version@,
            kind: self.kind@,
            name: self.name@,
            uid: self.uid@,
            controller: self.controller,
            block_owner_deletion: self.block_owner_deletion,
        }
    }
}

impl DeepView for OwnerReference {
    type V = OwnerReferenceView;

    open spec fn deep_view(&self) -> OwnerReferenceView {
        self@
    }
}

/// The metadata of an object: the fields of Kubernetes' `ObjectMeta` that the
/// system sets; every field left out is unset. Labels and annotations are kept
/// as key-value pairs in ascending key order.
#[derive(Debug, Clone, PartialEq, Eq)]
pub struct ObjectMeta {
    pub name: Option<String>,
    pub namespace: Option<String>,
    pub labels: Option<Vec<(String, String)>>,
    pub annotations: Option<Vec<(String, String)>>,
    pub owner_references: Option<Vec<OwnerReference>>,
}

/// The mathematical value of an `ObjectMeta`.
pub struct ObjectMetaView {
    pub name: Option<Seq<char>>,
    pub namespace: Option<Seq<char>>,
    pub labels: Option<Seq<(Seq<char>, Seq<char>)>>,
    pub annotations: Option<Seq<(Seq<char>, Seq<char>)>>,
    pub owner_references: Option<Seq<OwnerReferenceView>>,
}

impl View for ObjectMeta {
    type V = ObjectMetaView;

    open spec fn view(&self) -> ObjectMetaView {
        ObjectMetaView {
            name: self.name.deep_view(),
            namespace: self.namespace.deep_view(),
            labels: self.labels.deep_view(),
            annotations: self.annotations.deep_view(),
            owner_references: self.owner_references.deep_view(),
        }
    }
}

/// Metadata with no field set.
pub open spec fn empty_meta_view() -> ObjectMetaView {
    ObjectMetaView {
        name: None,
        namespace: None,
        labels: None,
        annotations: None,
        owner_references: None,
    }
}

impl ObjectMeta {
    /// Metadata with no field set.
    pub fn empty() -> (meta: ObjectMeta)
        ensures
            meta@ == empty_meta_view(),
    {
        ObjectMeta {
            name: None,
            namespace: None,
            labels: None,
            annotations: None,
            owner_references: None,
        }
    }
}

/// Builds an owned string from a literal.
pub fn owned(s: &str) -> (res: String)
    ensures
        res@ == s@,
{
    s.to_owned()
}

} // verus!
