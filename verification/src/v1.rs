//! The first schema generation.

use vstd::prelude::*;
use vstd::std_specs::convert::IntoSpecImpl;
use crate::error::RequestError;
use crate::request::CallbackRequestType;
use crate::record::{lemma_first_mismatch_in_order, RecordFields};
use crate::schema::{FieldName, FieldsView, RequestKind, RequestView};
use crate::version::SchemaVersion;
use crate::verification::KeylessInfo;
use std::collections::HashMap;

verus! {

/// The signature verifications a guest of the first generation can ask
/// for. The set is closed: later capabilities are added to later
/// generations only.
#[derive(Debug, Clone, PartialEq, Eq)]
pub enum SigstoreVerificationInputV1 {
    /// Verify that the manifest digest of an OCI object (an image, or
    /// anything else that an OCI registry can store) was signed with
    /// Sigstore, in public key mode.
    SigstorePubKeyVerify {
        /// Where the object is, e.g. `registry.testing.lan/busybox:1.0.0`.
        image: String,
        /// PEM encoded keys that must have been used to sign the object.
        pub_keys: Vec<String>,
        /// Annotations that every signer must have given when signing.
        annotations: Option<HashMap<String, String>>,
    },
    /// Verify that the manifest digest of an OCI object was signed with
    /// Sigstore, in keyless mode.
    SigstoreKeylessVerify {
        /// Where the object is, e.g. `registry.testing.lan/busybox:1.0.0`.
        image: String,
        /// Keyless signatures that must be found.
        keyless: Vec<KeylessInfo>,
        /// Annotations that every signer must have given when signing.
        annotations: Option<HashMap<String, String>>,
    },
}

impl View for SigstoreVerificationInputV1 {
    type V = RequestView;

    open spec fn view(&self) -> RequestView {
        match self {
            SigstoreVerificationInputV1::SigstorePubKeyVerify { image, pub_keys, annotations } => {
                RequestView {
                    kind: RequestKind::SigstorePubKeyVerify,
                    fields: FieldsView {
                        image: Some(image@),
                        pub_keys: Some(pub_keys.deep_view()),
                        annotations: annotations.deep_view(),
                        ..FieldsView::none()
                    },
                }
            },
            SigstoreVerificationInputV1::SigstoreKeylessVerify { image, keyless, annotations } => {
                RequestView {
                    kind: RequestKind::SigstoreKeylessVerify,
                    fields: FieldsView {
                        image: Some(image@),
                        keyless: Some(keyless.deep_view()),
                        annotations: annotations.deep_view(),
                        ..FieldsView::none()
                    },
                }
            },
        }
    }
}

impl SigstoreVerificationInputV1 {
    /// The canonical request that asks for the same thing.
    pub open spec fn canonical(self) -> CallbackRequestType {
        match self {
            SigstoreVerificationInputV1::SigstorePubKeyVerify { image, pub_keys, annotations } => {
                CallbackRequestType::SigstorePubKeyVerify { image, pub_keys, annotations }
            },
            SigstoreVerificationInputV1::SigstoreKeylessVerify { image, keyless, annotations } => {
                CallbackRequestType::SigstoreKeylessVerify { image, keyless, annotations }
            },
        }
    }
}

impl SigstoreVerificationInputV1 {
    /// Decodes a record of the first generation: a variant name and the
    /// fields that came with it.
    ///
    /// The result is the request of that name with the values that the
    /// record gives for the variant's fields, or the first reason why the
    /// record is none: a name that the generation does not have, or else
    /// what is wrong at the first field of the variant, in the order in
    /// which the variant declares them, at which something is. A field is
    /// at fault if the variant requires it and the record lacks it, or if
    /// the record holds under its name what is not of its type. What the
    /// record holds under the names of other fields is left aside,
    /// whatever it is.
    pub fn decode(variant: &str, fields: RecordFields) -> (result: Result<Self, RequestError>)
        ensures
            match SchemaVersion::V1.decoded(variant@, fields@) {
                Ok(view) => result matches Ok(request) && request@ == view,
                Err(error) => result matches Err(e) && e@ == error,
            },
    {
        let ghost given = fields@;
        let RecordFields { image, pub_keys, keyless, annotations, .. } = fields;
        match RequestKind::from_name(variant) {
            Some(RequestKind::SigstorePubKeyVerify) => {
                proof {
                    lemma_first_mismatch_in_order(given, RequestKind::SigstorePubKeyVerify);
                }
                let image = match image.required(variant, FieldName::Image) {
                    Ok(image) => image,
                    Err(error) => return Err(error),
                };
                let pub_keys = match pub_keys.required(variant, FieldName::PubKeys) {
                    Ok(pub_keys) => pub_keys,
                    Err(error) => return Err(error),
                };
                let annotations = match annotations.optional(variant, FieldName::Annotations) {
                    Ok(annotations) => annotations,
                    Err(error) => return Err(error),
                };
                Ok(
                    SigstoreVerificationInputV1::SigstorePubKeyVerify {
                        image,
                        pub_keys,
                        annotations,
                    },
                )
            },
            Some(RequestKind::SigstoreKeylessVerify) => {
                proof {
                    lemma_first_mismatch_in_order(given, RequestKind::SigstoreKeylessVerify);
                }
                let image = match image.required(variant, FieldName::Image) {
                    Ok(image) => image,
                    Err(error) => return Err(error),
                };
                let keyless = match keyless.required(variant, FieldName::Keyless) {
                    Ok(keyless) => keyless,
                    Err(error) => return Err(error),
                };
                let annotations = match annotations.optional(variant, FieldName::Annotations) {
                    Ok(annotations) => annotations,
                    Err(error) => return Err(error),
                };
                Ok(
                    SigstoreVerificationInputV1::SigstoreKeylessVerify {
                        image,
                        keyless,
                        annotations,
                    },
                )
            },
            _ => Err(RequestError::unknown_variant(variant)),
        }
    }
}

impl Into<CallbackRequestType> for SigstoreVerificationInputV1 {
    /// Relabels the request as the canonical variant of the same name.
    /// Every field is handed over as it is: none is dropped, changed or
    /// filled in.
    fn into(self) -> (request: CallbackRequestType)
        ensures
            request == self.canonical(),
            <CallbackRequestType as View>::view(&request) == self@,
    {
        match self {
            SigstoreVerificationInputV1::SigstorePubKeyVerify { image, pub_keys, annotations } => {
                CallbackRequestType::SigstorePubKeyVerify { image, pub_keys, annotations }
            },
            SigstoreVerificationInputV1::SigstoreKeylessVerify { image, keyless, annotations } => {
                CallbackRequestType::SigstoreKeylessVerify { image, keyless, annotations }
            },
        }
    }
}

impl IntoSpecImpl<CallbackRequestType> for SigstoreVerificationInputV1 {
    open spec fn obeys_into_spec() -> bool {
        true
    }

    open spec fn into_spec(self) -> CallbackRequestType {
        self.canonical()
    }
}

} // verus!
