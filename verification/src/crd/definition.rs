//! What the CustomResourceDefinition of each kind declares: its name,
//! group, version, scope and names.

use vstd::prelude::*;
use crate::k8s::meta::ObjectMeta;

verus! {

/// The API group of every custom resource.
pub const GROUP: &'static str = "thurkube.thurbeen.eu";

/// The one served and stored version.
pub const CRD_VERSION: &'static str = "v1alpha1";

/// `apiVersion` of every custom resource.
pub const API_VERSION: &'static str = "thurkube.thurbeen.eu/v1alpha1";

/// How a kind is named in the API.
#[derive(Clone, Debug)]
pub struct CrdNames {
    pub kind: String,
    pub plural: String,
    pub singular: String,
    pub short_names: Vec<String>,
}

/// A version of the API.
#[derive(Clone, Debug)]
pub struct CrdVersion {
    pub name: String,
    pub served: bool,
    pub storage: bool,
    /// The status subresource is enabled.
    pub status_subresource: bool,
    /// Extra columns shown by `kubectl get`.
    pub printer_columns: Vec<PrinterColumn>,
}

/// A column shown by `kubectl get`.
#[derive(Clone, Debug)]
pub struct PrinterColumn {
    pub name: String,
    pub type_: String,
    pub json_path: String,
}

/// What a CRD declares.
#[derive(Clone, Debug)]
pub struct CrdSpec {
    pub group: String,
    pub names: CrdNames,
    pub scope: String,
    pub versions: Vec<CrdVersion>,
}

/// A CustomResourceDefinition, as far as its identity goes.
#[derive(Clone, Debug)]
pub struct CustomResourceDefinition {
    pub metadata: ObjectMeta,
    pub spec: CrdSpec,
}

/// The name of the CRD of a kind with the given plural.
pub open spec fn crd_name_view(plural: Seq<char>) -> Seq<char> {
    plural + "."@ + GROUP@
}

impl CustomResourceDefinition {
    /// The definition declares a namespaced kind of this group, in the one
    /// version, with the given names.
    pub open spec fn declares(
        &self,
        kind: Seq<char>,
        plural: Seq<char>,
        singular: Seq<char>,
        short_name: Seq<char>,
        status: bool,
    ) -> bool {
        &&& self.metadata.name matches Some(n) && n@ == crd_name_view(plural)
        &&& self.metadata.generate_name is None
        &&& self.metadata.namespace is None
        &&& self.metadata.uid is None
        &&& self.metadata.generation is None
        &&& self.metadata.finalizers is None
        &&& self.metadata.deletion_timestamp is None
        &&& self.metadata.labels is None
        &&& self.metadata.owner_references is None
        &&& self.spec.group@ == GROUP@
        &&& self.spec.names.kind@ == kind
        &&& self.spec.names.plural@ == plural
        &&& self.spec.names.singular@ == singular
        &&& self.spec.names.short_names@.len() == 1
        &&& self.spec.names.short_names@[0]@ == short_name
        &&& self.spec.scope@ == "Namespaced"@
        &&& self.spec.versions@.len() == 1
        &&& self.spec.versions@[0].name@ == CRD_VERSION@
        &&& self.spec.versions@[0].served
        &&& self.spec.versions@[0].storage
        &&& self.spec.versions@[0].status_subresource == status
    }

    /// The definition shows no extra columns.
    pub open spec fn no_printer_columns(&self) -> bool {
        self.spec.versions@.len() == 1 && self.spec.versions@[0].printer_columns@.len() == 0
    }
}

/// The definition of a namespaced kind of this group.
pub fn definition(
    kind: &str,
    plural: &str,
    singular: &str,
    short_name: &str,
    status: bool,
) -> (d: CustomResourceDefinition)
    ensures
        d.declares(kind@, plural@, singular@, short_name@, status),
        d.no_printer_columns(),
{
    let mut name = plural.to_owned();
    name.append(".");
    name.append(GROUP);
    let mut metadata = ObjectMeta::empty();
    metadata.name = Some(name);
    let mut short_names: Vec<String> = Vec::new();
    short_names.push(short_name.to_owned());
    let mut versions: Vec<CrdVersion> = Vec::new();
    versions.push(
        CrdVersion {
            name: CRD_VERSION.to_owned(),
            served: true,
            storage: true,
            status_subresource: status,
            printer_columns: Vec::new(),
        },
    );
    CustomResourceDefinition {
        metadata,
        spec: CrdSpec {
            group: GROUP.to_owned(),
            names: CrdNames {
                kind: kind.to_owned(),
                plural: plural.to_owned(),
                singular: singular.to_owned(),
                short_names,
            },
            scope: "Namespaced".to_owned(),
            versions,
        },
    }
}

} // verus!
