//! The schema generations and what each of them admits.

use vstd::prelude::*;
use crate::error::{Mismatch, RequestError, RequestErrorView};
use crate::record::RecordView;
use crate::schema::{RequestKind, RequestView};

verus! {

/// A released generation of the request schema. A generation is frozen
/// once released: a later one adds variants and changes none.
#[derive(Debug, Clone, Copy, PartialEq, Eq, Hash, Structural)]
pub enum SchemaVersion {
    V1,
    V2,
}

impl SchemaVersion {
    /// The generation that a version tag names, if it names one.
    pub open spec fn of_tag(tag: u32) -> Option<SchemaVersion> {
        if tag == 1 {
            Some(SchemaVersion::V1)
        } else if tag == 2 {
            Some(SchemaVersion::V2)
        } else {
            None
        }
    }

    /// The version tag that names the generation.
    pub open spec fn spec_tag(self) -> u32 {
        match self {
            SchemaVersion::V1 => 1,
            SchemaVersion::V2 => 2,
        }
    }

    /// Whether the generation has a variant of the given kind.
    pub open spec fn admits(self, kind: RequestKind) -> bool {
        match self {
            SchemaVersion::V1 => {
                ||| kind == RequestKind::SigstorePubKeyVerify
                ||| kind == RequestKind::SigstoreKeylessVerify
            },
            SchemaVersion::V2 => {
                ||| kind == RequestKind::SigstorePubKeyVerify
                ||| kind == RequestKind::SigstoreKeylessVerify
                ||| kind == RequestKind::SigstoreKeylessPrefixVerify
                ||| kind == RequestKind::SigstoreGithubActionsVerify
            },
        }
    }

    /// What a record tagged with the given variant name means under this
    /// generation.
    ///
    /// It is a request if the generation has a variant of that name and
    /// nothing is wrong with the record at any field of the variant: the
    /// request then carries, under each of the variant's field names, the
    /// value that the record gives there, and what the record holds under
    /// other names is left aside. Otherwise the record is malformed, and
    /// the error tells the first reason: the name, or else what is wrong at
    /// the first field of the variant at which something is.
    pub open spec fn decoded(self, variant: Seq<char>, record: RecordView) -> Result<
        RequestView,
        RequestErrorView,
    > {
        match RequestKind::of_name(variant) {
            Some(kind) if self.admits(kind) => match record.first_mismatch(kind) {
                None => Ok(RequestView { kind, fields: record.fields_of(kind) }),
                Some(mismatch) => Err(RequestErrorView::MalformedRequest { variant, mismatch }),
            },
            _ => Err(
                RequestErrorView::MalformedRequest { variant, mismatch: Mismatch::UnknownVariant },
            ),
        }
    }

    /// The generation that a version tag names.
    pub fn from_tag(tag: u32) -> (result: Result<SchemaVersion, RequestError>)
        ensures
            match SchemaVersion::of_tag(tag) {
                Some(version) => result == Ok::<SchemaVersion, RequestError>(version),
                None => result == Err::<SchemaVersion, RequestError>(
                    RequestError::UnsupportedVersion { tag },
                ),
            },
    {
        if tag == 1 {
            Ok(SchemaVersion::V1)
        } else if tag == 2 {
            Ok(SchemaVersion::V2)
        } else {
            Err(RequestError::UnsupportedVersion { tag })
        }
    }

    /// The version tag that names this generation.
    #[verifier::when_used_as_spec(spec_tag)]
    pub fn tag(self) -> (tag: u32)
        ensures
            tag == self.spec_tag(),
            SchemaVersion::of_tag(tag) == Some(self),
    {
        match self {
            SchemaVersion::V1 => 1,
            SchemaVersion::V2 => 2,
        }
    }

    /// Whether the generation has a variant of the given kind.
    pub fn has_variant(self, kind: RequestKind) -> (has: bool)
        ensures
            has == self.admits(kind),
    {
        match kind {
            RequestKind::SigstorePubKeyVerify | RequestKind::SigstoreKeylessVerify => true,
            RequestKind::SigstoreKeylessPrefixVerify
            | RequestKind::SigstoreGithubActionsVerify => match self {
                SchemaVersion::V1 => false,
                SchemaVersion::V2 => true,
            },
            RequestKind::OciManifestDigest | RequestKind::DNSLookupHost => false,
        }
    }
}

} // verus!
