//! The canonical request: the one type the host's dispatcher matches on.

use vstd::prelude::*;
use crate::schema::{FieldsView, RequestKind, RequestView};
use crate::verification::{KeylessInfo, KeylessPrefixInfo};
use std::collections::HashMap;

verus! {

/// The kinds of request a guest can make to its host.
///
/// This is the union of the variants of every schema generation, and of
/// the variants that no generation wraps: the manifest digest and the DNS
/// lookup can be asked for only in this form.
#[derive(Debug, Clone, PartialEq, Eq)]
pub enum CallbackRequestType {
    /// Compute the manifest digest of an OCI object (an image, or anything
    /// else that an OCI registry can store).
    OciManifestDigest {
        /// Where the object is, e.g. `registry.testing.lan/busybox:1.0.0`.
        image: String,
    },
    /// Verify that the manifest digest of an OCI object was signed with
    /// Sigstore, in public key mode.
    SigstorePubKeyVerify {
        /// Where the object is, e.g. `registry.testing.lan/busybox:1.0.0`.
        image: String,
        /// PEM encoded keys that must have been used to sign the object.
        pub_keys: Vec<String>,
        /// Annotations that every signer must have given when signing.
        annotations: Option<HashMap<String, String>>,
    },
    /// Verify that the manifest digest of an OCI object was signed with
    /// Sigstore, in keyless mode.
    SigstoreKeylessVerify {
        /// Where the object is, e.g. `registry.testing.lan/busybox:1.0.0`.
        image: String,
        /// Keyless signatures that must be found.
        keyless: Vec<KeylessInfo>,
        /// Annotations that every signer must have given when signing.
        annotations: Option<HashMap<String, String>>,
    },
    /// Verify that the manifest digest of an OCI object was signed with
    /// Sigstore, in keyless mode, where each given subject is a URL prefix
    /// of the subject to match.
    SigstoreKeylessPrefixVerify {
        /// Where the object is, e.g. `registry.testing.lan/busybox:1.0.0`.
        image: String,
        /// Keyless signatures that must be found.
        keyless_prefix: Vec<KeylessPrefixInfo>,
        /// Annotations that every signer must have given when signing.
        annotations: Option<HashMap<String, String>>,
    },
    /// Verify that the manifest digest of an OCI object was signed with
    /// Sigstore, in keyless mode, inside GitHub Actions.
    SigstoreGithubActionsVerify {
        /// Where the object is, e.g. `registry.testing.lan/busybox:1.0.0`.
        image: String,
        /// Owner of the repository, e.g. `octocat`.
        owner: String,
        /// Repository of the workflow that signed the object, e.g.
        /// `example-repo`.
        repo: Option<String>,
        /// Annotations that every signer must have given when signing.
        annotations: Option<HashMap<String, String>>,
    },
    /// Look up the addresses of a host name through DNS.
    DNSLookupHost {
        /// The host name to resolve.
        host: String,
    },
}

impl View for CallbackRequestType {
    type V = RequestView;

    open spec fn view(&self) -> RequestView {
        match self {
            CallbackRequestType::OciManifestDigest { image } => RequestView {
                kind: RequestKind::OciManifestDigest,
                fields: FieldsView { image: Some(image@), ..FieldsView::none() },
            },
            CallbackRequestType::SigstorePubKeyVerify { image, pub_keys, annotations } => {
                RequestView {
                    kind: RequestKind::SigstorePubKeyVerify,
                    fields: FieldsView {
                        image: Some(image@),
                        pub_keys: Some(pub_keys.deep_view()),
                        annotations: annotations.deep_view(),
                        ..FieldsView::none()
                    },
                }
            },
            CallbackRequestType::SigstoreKeylessVerify { image, keyless, annotations } => {
                RequestView {
                    kind: RequestKind::SigstoreKeylessVerify,
                    fields: FieldsView {
                        image: Some(image@),
                        keyless: Some(keyless.deep_view()),
                        annotations: annotations.deep_view(),
                        ..FieldsView::none()
                    },
                }
            },
            CallbackRequestType::SigstoreKeylessPrefixVerify {
                image,
                keyless_prefix,
                annotations,
            } => RequestView {
                kind: RequestKind::SigstoreKeylessPrefixVerify,
                fields: FieldsView {
                    image: Some(image@),
                    keyless_prefix: Some(keyless_prefix.deep_view()),
                    annotations: annotations.deep_view(),
                    ..FieldsView::none()
                },
            },
            CallbackRequestType::SigstoreGithubActionsVerify {
                image,
                owner,
                repo,
                annotations,
            } => RequestView {
                kind: RequestKind::SigstoreGithubActionsVerify,
                fields: FieldsView {
                    image: Some(image@),
                    owner: Some(owner@),
                    repo: repo.deep_view(),
                    annotations: annotations.deep_view(),
                    ..FieldsView::none()
                },
            },
            CallbackRequestType::DNSLookupHost { host } => RequestView {
                kind: RequestKind::DNSLookupHost,
                fields: FieldsView { host: Some(host@), ..FieldsView::none() },
            },
        }
    }
}

impl CallbackRequestType {
    /// Which capability the request asks for.
    pub fn kind(&self) -> (kind: RequestKind)
        ensures
            kind == self@.kind,
    {
        match self {
            CallbackRequestType::OciManifestDigest { .. } => RequestKind::OciManifestDigest,
            CallbackRequestType::SigstorePubKeyVerify { .. } => RequestKind::SigstorePubKeyVerify,
            CallbackRequestType::SigstoreKeylessVerify { .. } => RequestKind::SigstoreKeylessVerify,
            CallbackRequestType::SigstoreKeylessPrefixVerify { .. } => {
                RequestKind::SigstoreKeylessPrefixVerify
            },
            CallbackRequestType::SigstoreGithubActionsVerify { .. } => {
                RequestKind::SigstoreGithubActionsVerify
            },
            CallbackRequestType::DNSLookupHost { .. } => RequestKind::DNSLookupHost,
        }
    }
}

} // verus!
