//! The second schema generation.

use vstd::prelude::*;
use vstd::std_specs::convert::FromSpecImpl;
use crate::error::RequestError;
use crate::request::CallbackRequestType;
use crate::record::{lemma_first_mismatch_in_order, RecordFields};
use crate::schema::{FieldName, FieldsView, RequestKind, RequestView};
use crate::version::SchemaVersion;
use crate::verification::{KeylessInfo, KeylessPrefixInfo};
use std::collections::HashMap;

verus! {

/// The signature verifications a guest of the second generation can ask
/// for: those of the first generation, unchanged, and two more.
#[derive(Debug, Clone, PartialEq, Eq)]
pub enum SigstoreVerificationInputV2 {
    /// Verify that the manifest digest of an OCI object (an image, or
    /// anything else that an OCI registry can store) was signed with
    /// Sigstore, in public key mode.
    SigstorePubKeyVerify {
        /// Where the object is, e.g. `registry.testing.lan/busybox:1.0.0`.
        image: String,
        /// PEM encoded keys that must have been used to sign the object.
        pub_keys: Vec<String>,
        /// Annotations that every signer must have given when signing.
        annotations: Option<HashMap<String, String>>,
    },
    /// Verify that the manifest digest of an OCI object was signed with
    /// Sigstore, in keyless mode.
    SigstoreKeylessVerify {
        /// Where the object is, e.g. `registry.testing.lan/busybox:1.0.0`.
        image: String,
        /// Keyless signatures that must be found.
        keyless: Vec<KeylessInfo>,
        /// Annotations that every signer must have given when signing.
        annotations: Option<HashMap<String, String>>,
    },
    /// Verify that the manifest digest of an OCI object was signed with
    /// Sigstore, in keyless mode, where each given subject is a URL prefix
    /// of the subject to match.
    SigstoreKeylessPrefixVerify {
        /// Where the object is, e.g. `registry.testing.lan/busybox:1.0.0`.
        image: String,
        /// Keyless signatures that must be found.
        keyless_prefix: Vec<KeylessPrefixInfo>,
        /// Annotations that every signer must have given when signing.
        annotations: Option<HashMap<String, String>>,
    },
    /// Verify that the manifest digest of an OCI object was signed with
    /// Sigstore, in keyless mode, inside GitHub Actions.
    SigstoreGithubActionsVerify {
        /// Where the object is, e.g. `registry.testing.lan/busybox:1.0.0`.
        image: String,
        /// Owner of the repository, e.g. `octocat`.
        owner: String,
        /// Repository of the workflow that signed the object, e.g.
        /// `example-repo`.
        repo: Option<String>,
        /// Annotations that every signer must have given when signing.
        annotations: Option<HashMap<String, String>>,
    },
}

impl View for SigstoreVerificationInputV2 {
    type V = RequestView;

    open spec fn view(&self) -> RequestView {
        match self {
            SigstoreVerificationInputV2::SigstorePubKeyVerify { image, pub_keys, annotations } => {
                RequestView {
                    kind: RequestKind::SigstorePubKeyVerify,
                    fields: FieldsView {
                        image: Some(image@),
                        pub_keys: Some(pub_keys.deep_view()),
                        annotations: annotations.deep_view(),
                        ..FieldsView::none()
                    },
                }
            },
            SigstoreVerificationInputV2::SigstoreKeylessVerify { image, keyless, annotations } => {
                RequestView {
                    kind: RequestKind::SigstoreKeylessVerify,
                    fields: FieldsView {
                        image: Some(image@),
                        keyless: Some(keyless.deep_view()),
                        annotations: annotations.deep_view(),
                        ..FieldsView::none()
                    },
                }
            },
            SigstoreVerificationInputV2::SigstoreKeylessPrefixVerify {
                image,
                keyless_prefix,
                annotations,
            } => RequestView {
                kind: RequestKind::SigstoreKeylessPrefixVerify,
                fields: FieldsView {
                    image: Some(image@),
                    keyless_prefix: Some(keyless_prefix.deep_view()),
                    annotations: annotations.deep_view(),
                    ..FieldsView::none()
                },
            },
            SigstoreVerificationInputV2::SigstoreGithubActionsVerify {
                image,
                owner,
                repo,
                annotations,
            } => RequestView {
                kind: RequestKind::SigstoreGithubActionsVerify,
                fields: FieldsView {
                    image: Some(image@),
                    owner: Some(owner@),
                    repo: repo.deep_view(),
                    annotations: annotations.deep_view(),
                    ..FieldsView::none()
                },
            },
        }
    }
}

impl SigstoreVerificationInputV2 {
    /// The canonical request that asks for the same thing.
    pub open spec fn canonical(self) -> CallbackRequestType {
        match self {
            SigstoreVerificationInputV2::SigstorePubKeyVerify { image, pub_keys, annotations } => {
                CallbackRequestType::SigstorePubKeyVerify { image, pub_keys, annotations }
            },
            SigstoreVerificationInputV2::SigstoreKeylessVerify { image, keyless, annotations } => {
                CallbackRequestType::SigstoreKeylessVerify { image, keyless, annotations }
            },
            SigstoreVerificationInputV2::SigstoreKeylessPrefixVerify {
                image,
                keyless_prefix,
                annotations,
            } => CallbackRequestType::SigstoreKeylessPrefixVerify {
                image,
                keyless_prefix,
                annotations,
            },
            SigstoreVerificationInputV2::SigstoreGithubActionsVerify {
                image,
                owner,
                repo,
                annotations,
            } => CallbackRequestType::SigstoreGithubActionsVerify {
                image,
                owner,
                repo,
                annotations,
            },
        }
    }
}

impl SigstoreVerificationInputV2 {
    /// Decodes a record of the second generation: a variant name and the
    /// fields that came with it.
    ///
    /// The result is the request of that name with the values that the
    /// record gives for the variant's fields, or the first reason why the
    /// record is none: a name that the generation does not have, or else
    /// what is wrong at the first field of the variant, in the order in
    /// which the variant declares them, at which something is. A field is
    /// at fault if the variant requires it and the record lacks it, or if
    /// the record holds under its name what is not of its type. What the
    /// record holds under the names of other fields is left aside,
    /// whatever it is.
    pub fn decode(variant: &str, fields: RecordFields) -> (result: Result<Self, RequestError>)
        ensures
            match SchemaVersion::V2.decoded(variant@, fields@) {
                Ok(view) => result matches Ok(request) && request@ == view,
                Err(error) => result matches Err(e) && e@ == error,
            },
    {
        let ghost given = fields@;
        let RecordFields { image, pub_keys, keyless, keyless_prefix, owner, repo, annotations } =
            fields;
        match RequestKind::from_name(variant) {
            Some(RequestKind::SigstorePubKeyVerify) => {
                proof {
                    lemma_first_mismatch_in_order(given, RequestKind::SigstorePubKeyVerify);
                }
                let image = match image.required(variant, FieldName::Image) {
                    Ok(image) => image,
                    Err(error) => return Err(error),
                };
                let pub_keys = match pub_keys.required(variant, FieldName::PubKeys) {
                    Ok(pub_keys) => pub_keys,
                    Err(error) => return Err(error),
                };
                let annotations = match annotations.optional(variant, FieldName::Annotations) {
                    Ok(annotations) => annotations,
                    Err(error) => return Err(error),
                };
                Ok(
                    SigstoreVerificationInputV2::SigstorePubKeyVerify {
                        image,
                        pub_keys,
                        annotations,
                    },
                )
            },
            Some(RequestKind::SigstoreKeylessVerify) => {
                proof {
                    lemma_first_mismatch_in_order(given, RequestKind::SigstoreKeylessVerify);
                }
                let image = match image.required(variant, FieldName::Image) {
                    Ok(image) => image,
                    Err(error) => return Err(error),
                };
                let keyless = match keyless.required(variant, FieldName::Keyless) {
                    Ok(keyless) => keyless,
                    Err(error) => return Err(error),
                };
                let annotations = match annotations.optional(variant, FieldName::Annotations) {
                    Ok(annotations) => annotations,
                    Err(error) => return Err(error),
                };
                Ok(
                    SigstoreVerificationInputV2::SigstoreKeylessVerify {
                        image,
                        keyless,
                        annotations,
                    },
                )
            },
            Some(RequestKind::SigstoreKeylessPrefixVerify) => {
                proof {
                    lemma_first_mismatch_in_order(given, RequestKind::SigstoreKeylessPrefixVerify);
                }
                let image = match image.required(variant, FieldName::Image) {
                    Ok(image) => image,
                    Err(error) => return Err(error),
                };
                let keyless_prefix = match keyless_prefix.required(
                    variant,
                    FieldName::KeylessPrefix,
                ) {
                    Ok(keyless_prefix) => keyless_prefix,
                    Err(error) => return Err(error),
                };
                let annotations = match annotations.optional(variant, FieldName::Annotations) {
                    Ok(annotations) => annotations,
                    Err(error) => return Err(error),
                };
                Ok(
                    SigstoreVerificationInputV2::SigstoreKeylessPrefixVerify {
                        image,
                        keyless_prefix,
                        annotations,
                    },
                )
            },
            Some(RequestKind::SigstoreGithubActionsVerify) => {
                proof {
                    lemma_first_mismatch_in_order(given, RequestKind::SigstoreGithubActionsVerify);
                }
                let image = match image.required(variant, FieldName::Image) {
                    Ok(image) => image,
                    Err(error) => return Err(error),
                };
                let owner = match owner.required(variant, FieldName::Owner) {
                    Ok(owner) => owner,
                    Err(error) => return Err(error),
                };
                let repo = match repo.optional(variant, FieldName::Repo) {
                    Ok(repo) => repo,
                    Err(error) => return Err(error),
                };
                let annotations = match annotations.optional(variant, FieldName::Annotations) {
                    Ok(annotations) => annotations,
                    Err(error) => return Err(error),
                };
                Ok(
                    SigstoreVerificationInputV2::SigstoreGithubActionsVerify {
                        image,
                        owner,
                        repo,
                        annotations,
                    },
                )
            },
            _ => Err(RequestError::unknown_variant(variant)),
        }
    }
}

impl From<SigstoreVerificationInputV2> for CallbackRequestType {
    /// Relabels the request as the canonical variant of the same name.
    /// Every field is handed over as it is: none is dropped, changed or
    /// filled in.
    fn from(val: SigstoreVerificationInputV2) -> (request: CallbackRequestType)
        ensures
            request == val.canonical(),
            request@ == val@,
    {
        match val {
            SigstoreVerificationInputV2::SigstorePubKeyVerify { image, pub_keys, annotations } => {
                CallbackRequestType::SigstorePubKeyVerify { image, pub_keys, annotations }
            },
            SigstoreVerificationInputV2::SigstoreKeylessVerify { image, keyless, annotations } => {
                CallbackRequestType::SigstoreKeylessVerify { image, keyless, annotations }
            },
            SigstoreVerificationInputV2::SigstoreKeylessPrefixVerify {
                image,
                keyless_prefix,
                annotations,
            } => CallbackRequestType::SigstoreKeylessPrefixVerify {
                image,
                keyless_prefix,
                annotations,
            },
            SigstoreVerificationInputV2::SigstoreGithubActionsVerify {
                image,
                owner,
                repo,
                annotations,
            } => CallbackRequestType::SigstoreGithubActionsVerify {
                image,
                owner,
                repo,
                annotations,
            },
        }
    }
}

impl FromSpecImpl<SigstoreVerificationInputV2> for CallbackRequestType {
    open spec fn obeys_from_spec() -> bool {
        true
    }

    open spec fn from_spec(val: SigstoreVerificationInputV2) -> CallbackRequestType {
        val.canonical()
    }
}

} // verus!
