//! The vocabulary shared by every schema generation: the names of the request
//! variants, the names of their fields, and which fields each variant carries.
//!
//! Every request type of this crate, whatever its generation, has the same
//! mathematical view: a [`RequestView`], the variant's name together with the
//! fields it carries. Conversions between request types are stated as
//! equalities of these views.

use vstd::prelude::*;
use crate::text::same_text;
use crate::verification::{KeylessInfoView, KeylessPrefixInfoView};

verus! {

/// The capability a request asks for. One value per variant name that any
/// request type of this crate has.
#[derive(Debug, Clone, Copy, PartialEq, Eq, Hash, Structural)]
pub enum RequestKind {
    /// Compute the digest of an OCI manifest.
    OciManifestDigest,
    /// Verify signatures made with given public keys.
    SigstorePubKeyVerify,
    /// Verify keyless signatures of given identities.
    SigstoreKeylessVerify,
    /// Verify keyless signatures whose subject starts with a given prefix.
    SigstoreKeylessPrefixVerify,
    /// Verify keyless signatures made inside GitHub Actions.
    SigstoreGithubActionsVerify,
    /// Resolve a host name through DNS.
    DNSLookupHost,
}

/// The name of a field of a request.
#[derive(Debug, Clone, Copy, PartialEq, Eq, Hash, Structural)]
pub enum FieldName {
    Image,
    PubKeys,
    Keyless,
    KeylessPrefix,
    Owner,
    Repo,
    Annotations,
    Host,
}

impl FieldName {
    /// Whether a request may leave the field out. A field that is left out
    /// is not the same as one that holds an empty collection.
    pub open spec fn is_optional(self) -> bool {
        self == FieldName::Repo || self == FieldName::Annotations
    }

    /// The field's name as it is written in a serialized request.
    pub open spec fn wire_name(self) -> Seq<char> {
        match self {
            FieldName::Image => "image"@,
            FieldName::PubKeys => "pub_keys"@,
            FieldName::Keyless => "keyless"@,
            FieldName::KeylessPrefix => "keyless_prefix"@,
            FieldName::Owner => "owner"@,
            FieldName::Repo => "repo"@,
            FieldName::Annotations => "annotations"@,
            FieldName::Host => "host"@,
        }
    }

    /// The field's name as it is written in a serialized request.
    pub fn name(self) -> (text: &'static str)
        ensures
            text@ == self.wire_name(),
    {
        match self {
            FieldName::Image => "image",
            FieldName::PubKeys => "pub_keys",
            FieldName::Keyless => "keyless",
            FieldName::KeylessPrefix => "keyless_prefix",
            FieldName::Owner => "owner",
            FieldName::Repo => "repo",
            FieldName::Annotations => "annotations",
            FieldName::Host => "host",
        }
    }
}

impl RequestKind {
    /// The variant's name as it is written in a serialized request.
    pub open spec fn wire_name(self) -> Seq<char> {
        match self {
            RequestKind::OciManifestDigest => "OciManifestDigest"@,
            RequestKind::SigstorePubKeyVerify => "SigstorePubKeyVerify"@,
            RequestKind::SigstoreKeylessVerify => "SigstoreKeylessVerify"@,
            RequestKind::SigstoreKeylessPrefixVerify => "SigstoreKeylessPrefixVerify"@,
            RequestKind::SigstoreGithubActionsVerify => "SigstoreGithubActionsVerify"@,
            RequestKind::DNSLookupHost => "DNSLookupHost"@,
        }
    }

    /// The variant that a name denotes, if it denotes one.
    pub open spec fn of_name(name: Seq<char>) -> Option<RequestKind> {
        if name == RequestKind::OciManifestDigest.wire_name() {
            Some(RequestKind::OciManifestDigest)
        } else if name == RequestKind::SigstorePubKeyVerify.wire_name() {
            Some(RequestKind::SigstorePubKeyVerify)
        } else if name == RequestKind::SigstoreKeylessVerify.wire_name() {
            Some(RequestKind::SigstoreKeylessVerify)
        } else if name == RequestKind::SigstoreKeylessPrefixVerify.wire_name() {
            Some(RequestKind::SigstoreKeylessPrefixVerify)
        } else if name == RequestKind::SigstoreGithubActionsVerify.wire_name() {
            Some(RequestKind::SigstoreGithubActionsVerify)
        } else if name == RequestKind::DNSLookupHost.wire_name() {
            Some(RequestKind::DNSLookupHost)
        } else {
            None
        }
    }

    /// The fields of a request of this variant, in the order in which the
    /// variant declares them.
    pub open spec fn fields(self) -> Seq<FieldName> {
        match self {
            RequestKind::OciManifestDigest => seq![FieldName::Image],
            RequestKind::SigstorePubKeyVerify => seq![
                FieldName::Image,
                FieldName::PubKeys,
                FieldName::Annotations,
            ],
            RequestKind::SigstoreKeylessVerify => seq![
                FieldName::Image,
                FieldName::Keyless,
                FieldName::Annotations,
            ],
            RequestKind::SigstoreKeylessPrefixVerify => seq![
                FieldName::Image,
                FieldName::KeylessPrefix,
                FieldName::Annotations,
            ],
            RequestKind::SigstoreGithubActionsVerify => seq![
                FieldName::Image,
                FieldName::Owner,
                FieldName::Repo,
                FieldName::Annotations,
            ],
            RequestKind::DNSLookupHost => seq![FieldName::Host],
        }
    }

    /// Whether a request of this variant has a field of the given name.
    pub open spec fn has_field(self, field: FieldName) -> bool {
        self.fields().contains(field)
    }

    /// Whether a request of this variant must carry the field: it has the
    /// field, and the field is not one that may be left out.
    pub open spec fn is_required(self, field: FieldName) -> bool {
        self.has_field(field) && !field.is_optional()
    }

    /// The variant's name as it is written in a serialized request.
    pub fn name(self) -> (text: &'static str)
        ensures
            text@ == self.wire_name(),
    {
        match self {
            RequestKind::OciManifestDigest => "OciManifestDigest",
            RequestKind::SigstorePubKeyVerify => "SigstorePubKeyVerify",
            RequestKind::SigstoreKeylessVerify => "SigstoreKeylessVerify",
            RequestKind::SigstoreKeylessPrefixVerify => "SigstoreKeylessPrefixVerify",
            RequestKind::SigstoreGithubActionsVerify => "SigstoreGithubActionsVerify",
            RequestKind::DNSLookupHost => "DNSLookupHost",
        }
    }

    /// Finds the variant that a name denotes. Names are compared as a whole
    /// and with case.
    pub fn from_name(name: &str) -> (kind: Option<RequestKind>)
        ensures
            kind == RequestKind::of_name(name@),
    {
        if same_text(name, RequestKind::OciManifestDigest.name()) {
            Some(RequestKind::OciManifestDigest)
        } else if same_text(name, RequestKind::SigstorePubKeyVerify.name()) {
            Some(RequestKind::SigstorePubKeyVerify)
        } else if same_text(name, RequestKind::SigstoreKeylessVerify.name()) {
            Some(RequestKind::SigstoreKeylessVerify)
        } else if same_text(name, RequestKind::SigstoreKeylessPrefixVerify.name()) {
            Some(RequestKind::SigstoreKeylessPrefixVerify)
        } else if same_text(name, RequestKind::SigstoreGithubActionsVerify.name()) {
            Some(RequestKind::SigstoreGithubActionsVerify)
        } else if same_text(name, RequestKind::DNSLookupHost.name()) {
            Some(RequestKind::DNSLookupHost)
        } else {
            None
        }
    }
}

/// No two variants have the same name: a name denotes a variant exactly
/// when it is that variant's name.
pub proof fn lemma_name_denotes_its_kind(kind: RequestKind)
    ensures
        RequestKind::of_name(kind.wire_name()) == Some(kind),
        forall|name: Seq<char>| #[trigger]
            RequestKind::of_name(name) == Some(kind) <==> name == kind.wire_name(),
{
    reveal_strlit("OciManifestDigest");
    reveal_strlit("SigstorePubKeyVerify");
    reveal_strlit("SigstoreKeylessVerify");
    reveal_strlit("SigstoreKeylessPrefixVerify");
    reveal_strlit("SigstoreGithubActionsVerify");
    reveal_strlit("DNSLookupHost");
    assert("OciManifestDigest"@.len() == 17);
    assert("SigstorePubKeyVerify"@.len() == 20);
    assert("SigstoreKeylessVerify"@.len() == 21);
    assert("SigstoreKeylessPrefixVerify"@.len() == 27);
    assert("SigstoreGithubActionsVerify"@.len() == 27);
    assert("DNSLookupHost"@.len() == 13);
    assert("SigstoreKeylessPrefixVerify"@[8] == 'K');
    assert("SigstoreGithubActionsVerify"@[8] == 'G');
}

/// Mathematical content of the fields of a request: for each field name,
/// the value the request carries under it, if any.
pub struct FieldsView {
    pub image: Option<Seq<char>>,
    pub pub_keys: Option<Seq<Seq<char>>>,
    pub keyless: Option<Seq<KeylessInfoView>>,
    pub keyless_prefix: Option<Seq<KeylessPrefixInfoView>>,
    pub owner: Option<Seq<char>>,
    pub repo: Option<Seq<char>>,
    pub annotations: Option<Map<Seq<char>, Seq<char>>>,
    pub host: Option<Seq<char>>,
}

impl FieldsView {
    /// No field at all.
    pub open spec fn none() -> FieldsView {
        FieldsView {
            image: None,
            pub_keys: None,
            keyless: None,
            keyless_prefix: None,
            owner: None,
            repo: None,
            annotations: None,
            host: None,
        }
    }

    /// Whether a value is carried under the given name.
    pub open spec fn has(self, field: FieldName) -> bool {
        match field {
            FieldName::Image => self.image is Some,
            FieldName::PubKeys => self.pub_keys is Some,
            FieldName::Keyless => self.keyless is Some,
            FieldName::KeylessPrefix => self.keyless_prefix is Some,
            FieldName::Owner => self.owner is Some,
            FieldName::Repo => self.repo is Some,
            FieldName::Annotations => self.annotations is Some,
            FieldName::Host => self.host is Some,
        }
    }
}

/// Mathematical content of a request of any generation: which variant it is
/// and which fields it carries.
pub struct RequestView {
    pub kind: RequestKind,
    pub fields: FieldsView,
}

impl RequestView {
    /// Whether the fields are those of the variant: every field that the
    /// variant requires is carried, and no field that the variant does not
    /// have.
    pub open spec fn well_formed(self) -> bool {
        forall|field: FieldName|
            {
                &&& #[trigger] self.fields.has(field) ==> self.kind.has_field(field)
                &&& self.kind.is_required(field) ==> self.fields.has(field)
            }
    }
}

} // verus!
