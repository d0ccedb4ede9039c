//! What holds of the schema as a whole: laws that relate the request types,
//! their conversions and the decoding of records.

use vstd::prelude::*;
use crate::decode::request_of;
use crate::error::{Mismatch, RequestErrorView};
use crate::record::{lemma_first_mismatch_in_order, RecordView};
use crate::request::CallbackRequestType;
use crate::schema::{lemma_name_denotes_its_kind, FieldName, RequestKind, RequestView};
use crate::v1::SigstoreVerificationInputV1;
use crate::v2::SigstoreVerificationInputV2;
use crate::version::SchemaVersion;

verus! {

/// Converting a request of the first generation to canonical form loses
/// nothing: the canonical request is of the variant of the same name and
/// carries the same value under every field name.
pub proof fn lemma_canonical_keeps_v1(request: SigstoreVerificationInputV1)
    ensures
        request.canonical()@.kind == request@.kind,
        request.canonical()@.fields == request@.fields,
{
}

/// Converting a request of the second generation to canonical form loses
/// nothing: the canonical request is of the variant of the same name and
/// carries the same value under every field name.
pub proof fn lemma_canonical_keeps_v2(request: SigstoreVerificationInputV2)
    ensures
        request.canonical()@.kind == request@.kind,
        request.canonical()@.fields == request@.fields,
{
}

/// Two requests of the first generation with the same canonical form are
/// the same request.
pub proof fn lemma_canonical_is_one_to_one_v1(
    a: SigstoreVerificationInputV1,
    b: SigstoreVerificationInputV1,
)
    requires
        a.canonical() == b.canonical(),
    ensures
        a == b,
{
}

/// Two requests of the second generation with the same canonical form are
/// the same request.
pub proof fn lemma_canonical_is_one_to_one_v2(
    a: SigstoreVerificationInputV2,
    b: SigstoreVerificationInputV2,
)
    requires
        a.canonical() == b.canonical(),
    ensures
        a == b,
{
}

/// A request of the first generation is of a variant that the generation
/// has, and carries that variant's fields: all that are required, and none
/// that the variant does not have.
pub proof fn lemma_v1_is_well_formed(request: SigstoreVerificationInputV1)
    ensures
        SchemaVersion::V1.admits(request@.kind),
        request@.well_formed(),
{
    lemma_fields_of_each_kind();
}

/// A request of the second generation is of a variant that the generation
/// has, and carries that variant's fields: all that are required, and none
/// that the variant does not have.
pub proof fn lemma_v2_is_well_formed(request: SigstoreVerificationInputV2)
    ensures
        SchemaVersion::V2.admits(request@.kind),
        request@.well_formed(),
{
    lemma_fields_of_each_kind();
}

/// A canonical request carries its variant's fields: all that are
/// required, and none that the variant does not have.
pub proof fn lemma_canonical_is_well_formed(request: CallbackRequestType)
    ensures
        request@.well_formed(),
{
    lemma_fields_of_each_kind();
}

/// Which fields each variant has, name by name. The image is a field of
/// every variant but the DNS lookup, the host of that one alone; the
/// annotations are a field of the four verifications.
pub proof fn lemma_fields_of_each_kind()
    ensures
        forall|kind: RequestKind| #[trigger]
            kind.has_field(FieldName::Image) <==> kind != RequestKind::DNSLookupHost,
        forall|kind: RequestKind| #[trigger]
            kind.has_field(FieldName::PubKeys) <==> kind == RequestKind::SigstorePubKeyVerify,
        forall|kind: RequestKind| #[trigger]
            kind.has_field(FieldName::Keyless) <==> kind == RequestKind::SigstoreKeylessVerify,
        forall|kind: RequestKind| #[trigger]
            kind.has_field(FieldName::KeylessPrefix) <==> kind
                == RequestKind::SigstoreKeylessPrefixVerify,
        forall|kind: RequestKind| #[trigger]
            kind.has_field(FieldName::Owner) <==> kind
                == RequestKind::SigstoreGithubActionsVerify,
        forall|kind: RequestKind| #[trigger]
            kind.has_field(FieldName::Repo) <==> kind == RequestKind::SigstoreGithubActionsVerify,
        forall|kind: RequestKind| #[trigger]
            kind.has_field(FieldName::Annotations) <==> kind != RequestKind::OciManifestDigest
                && kind != RequestKind::DNSLookupHost,
        forall|kind: RequestKind| #[trigger]
            kind.has_field(FieldName::Host) <==> kind == RequestKind::DNSLookupHost,
{
    assert forall|kind: RequestKind| #![auto]
        kind.has_field(FieldName::Image) <==> kind != RequestKind::DNSLookupHost by {
        if kind != RequestKind::DNSLookupHost {
            assert(kind.fields()[0] == FieldName::Image);
        }
    }
    assert forall|kind: RequestKind| #![auto]
        kind.has_field(FieldName::PubKeys) <==> kind == RequestKind::SigstorePubKeyVerify by {
        if kind == RequestKind::SigstorePubKeyVerify {
            assert(kind.fields()[1] == FieldName::PubKeys);
        }
    }
    assert forall|kind: RequestKind| #![auto]
        kind.has_field(FieldName::Keyless) <==> kind == RequestKind::SigstoreKeylessVerify by {
        if kind == RequestKind::SigstoreKeylessVerify {
            assert(kind.fields()[1] == FieldName::Keyless);
        }
    }
    assert forall|kind: RequestKind| #![auto]
        kind.has_field(FieldName::KeylessPrefix) <==> kind
            == RequestKind::SigstoreKeylessPrefixVerify by {
        if kind == RequestKind::SigstoreKeylessPrefixVerify {
            assert(kind.fields()[1] == FieldName::KeylessPrefix);
        }
    }
    assert forall|kind: RequestKind| #![auto]
        kind.has_field(FieldName::Owner) <==> kind == RequestKind::SigstoreGithubActionsVerify by {
        if kind == RequestKind::SigstoreGithubActionsVerify {
            assert(kind.fields()[1] == FieldName::Owner);
        }
    }
    assert forall|kind: RequestKind| #![auto]
        kind.has_field(FieldName::Repo) <==> kind == RequestKind::SigstoreGithubActionsVerify by {
        if kind == RequestKind::SigstoreGithubActionsVerify {
            assert(kind.fields()[2] == FieldName::Repo);
        }
    }
    assert forall|kind: RequestKind| #![auto]
        kind.has_field(FieldName::Annotations) <==> kind != RequestKind::OciManifestDigest && kind
            != RequestKind::DNSLookupHost by {
        if kind == RequestKind::SigstoreGithubActionsVerify {
            assert(kind.fields()[3] == FieldName::Annotations);
        } else if kind != RequestKind::OciManifestDigest && kind != RequestKind::DNSLookupHost {
            assert(kind.fields()[2] == FieldName::Annotations);
        }
    }
    assert forall|kind: RequestKind| #![auto]
        kind.has_field(FieldName::Host) <==> kind == RequestKind::DNSLookupHost by {
        if kind == RequestKind::DNSLookupHost {
            assert(kind.fields()[0] == FieldName::Host);
        }
    }
}

/// The second generation has every variant of the first.
pub proof fn lemma_v2_has_the_variants_of_v1(kind: RequestKind)
    requires
        SchemaVersion::V1.admits(kind),
    ensures
        SchemaVersion::V2.admits(kind),
{
}

/// Every request of the first generation is also one of the second: there
/// is a request of the second generation of the same variant name, with
/// the same fields and the same canonical form.
pub proof fn lemma_v2_extends_v1(request: SigstoreVerificationInputV1)
    ensures
        exists|later: SigstoreVerificationInputV2|
            later@ == request@ && #[trigger] later.canonical() == request.canonical(),
{
    let later = match request {
        SigstoreVerificationInputV1::SigstorePubKeyVerify { image, pub_keys, annotations } => {
            SigstoreVerificationInputV2::SigstorePubKeyVerify { image, pub_keys, annotations }
        },
        SigstoreVerificationInputV1::SigstoreKeylessVerify { image, keyless, annotations } => {
            SigstoreVerificationInputV2::SigstoreKeylessVerify { image, keyless, annotations }
        },
    };
    assert(later@ == request@ && later.canonical() == request.canonical());
}

/// The second generation changes no variant of the first: every request
/// of the second generation of a variant that the first has is also a
/// request of the first, with the same fields and the same canonical form.
pub proof fn lemma_v2_keeps_the_variants_of_v1(request: SigstoreVerificationInputV2)
    requires
        SchemaVersion::V1.admits(request@.kind),
    ensures
        exists|earlier: SigstoreVerificationInputV1|
            earlier@ == request@ && #[trigger] earlier.canonical() == request.canonical(),
{
    match request {
        SigstoreVerificationInputV2::SigstorePubKeyVerify { image, pub_keys, annotations } => {
            let earlier = SigstoreVerificationInputV1::SigstorePubKeyVerify {
                image,
                pub_keys,
                annotations,
            };
            assert(earlier@ == request@ && earlier.canonical() == request.canonical());
        },
        SigstoreVerificationInputV2::SigstoreKeylessVerify { image, keyless, annotations } => {
            let earlier = SigstoreVerificationInputV1::SigstoreKeylessVerify {
                image,
                keyless,
                annotations,
            };
            assert(earlier@ == request@ && earlier.canonical() == request.canonical());
        },
        _ => {},
    }
}

/// The canonical type is the union of the generations and the two
/// variants that no generation wraps: every canonical request is a
/// manifest digest, a DNS lookup, or the canonical form of a request of
/// the second generation.
pub proof fn lemma_canonical_is_the_union(request: CallbackRequestType)
    ensures
        request is OciManifestDigest || request is DNSLookupHost || exists|
            versioned: SigstoreVerificationInputV2,
        | #[trigger] versioned.canonical() == request,
{
    match request {
        CallbackRequestType::SigstorePubKeyVerify { image, pub_keys, annotations } => {
            let versioned = SigstoreVerificationInputV2::SigstorePubKeyVerify {
                image,
                pub_keys,
                annotations,
            };
            assert(versioned.canonical() == request);
        },
        CallbackRequestType::SigstoreKeylessVerify { image, keyless, annotations } => {
            let versioned = SigstoreVerificationInputV2::SigstoreKeylessVerify {
                image,
                keyless,
                annotations,
            };
            assert(versioned.canonical() == request);
        },
        CallbackRequestType::SigstoreKeylessPrefixVerify { image, keyless_prefix, annotations } => {
            let versioned = SigstoreVerificationInputV2::SigstoreKeylessPrefixVerify {
                image,
                keyless_prefix,
                annotations,
            };
            assert(versioned.canonical() == request);
        },
        CallbackRequestType::SigstoreGithubActionsVerify { image, owner, repo, annotations } => {
            let versioned = SigstoreVerificationInputV2::SigstoreGithubActionsVerify {
                image,
                owner,
                repo,
                annotations,
            };
            assert(versioned.canonical() == request);
        },
        _ => {},
    }
}

/// A record under a name of the first generation is read by the second
/// generation as by the first, whether it is a request or not: the
/// variants that the second generation adds change nothing for the
/// variants of the first.
pub proof fn lemma_v2_decodes_as_v1_decodes(variant: Seq<char>, record: RecordView)
    requires
        RequestKind::of_name(variant) matches Some(kind) && SchemaVersion::V1.admits(kind),
    ensures
        SchemaVersion::V2.decoded(variant, record) == SchemaVersion::V1.decoded(variant, record),
{
}

/// No generation wraps the DNS lookup or the manifest digest: no
/// generation has such a variant, and no record decodes to one, whatever
/// its name and fields.
pub proof fn lemma_canonical_only_variants(
    version: SchemaVersion,
    variant: Seq<char>,
    record: RecordView,
)
    ensures
        !version.admits(RequestKind::DNSLookupHost),
        !version.admits(RequestKind::OciManifestDigest),
        version.decoded(variant, record) matches Ok(view) ==> view.kind
            != RequestKind::DNSLookupHost && view.kind != RequestKind::OciManifestDigest,
        request_of(version.tag(), variant, record) matches Ok(view) ==> view.kind
            != RequestKind::DNSLookupHost && view.kind != RequestKind::OciManifestDigest,
{
}

/// A request of the first generation is never a DNS lookup or a manifest
/// digest, and never converts to one.
pub proof fn lemma_v1_has_no_canonical_only_variant(request: SigstoreVerificationInputV1)
    ensures
        request@.kind != RequestKind::DNSLookupHost,
        request@.kind != RequestKind::OciManifestDigest,
        !(request.canonical() is DNSLookupHost),
        !(request.canonical() is OciManifestDigest),
{
}

/// A request of the second generation is never a DNS lookup or a manifest
/// digest, and never converts to one.
pub proof fn lemma_v2_has_no_canonical_only_variant(request: SigstoreVerificationInputV2)
    ensures
        request@.kind != RequestKind::DNSLookupHost,
        request@.kind != RequestKind::OciManifestDigest,
        !(request.canonical() is DNSLookupHost),
        !(request.canonical() is OciManifestDigest),
{
}

/// Decoding fails on exactly the records that are no request of the
/// generation: those whose name is not that of a variant of the
/// generation, and those that, at some field of their variant, lack a
/// value that the variant requires or hold a value of another type. The
/// failure is always `MalformedRequest`, and it names the record's variant.
pub proof fn lemma_decoding_fails_exactly_when_malformed(
    version: SchemaVersion,
    variant: Seq<char>,
    record: RecordView,
)
    ensures
        version.decoded(variant, record) is Err <==> {
            ||| RequestKind::of_name(variant) is None
            ||| !version.admits(RequestKind::of_name(variant)->0)
            ||| exists|field: FieldName|
                #![trigger record.is_given(field)]
                #![trigger record.is_mistyped(field)]
                {
                    let kind = RequestKind::of_name(variant)->0;
                    ||| kind.is_required(field) && !record.is_given(field)
                    ||| kind.has_field(field) && record.is_mistyped(field)
                }
        },
        version.decoded(variant, record) matches Err(error) ==> error is MalformedRequest
            && error->variant == variant,
        version.decoded(variant, record) matches Err(error) ==> (error->mismatch
            == Mismatch::UnknownVariant <==> {
            ||| RequestKind::of_name(variant) is None
            ||| !version.admits(RequestKind::of_name(variant)->0)
        }),
{
    if RequestKind::of_name(variant) is Some {
        let kind = RequestKind::of_name(variant)->0;
        let declared = kind.fields();
        lemma_first_mismatch_in_order(record, kind);
        lemma_fields_of_each_kind();
        if version.admits(kind) {
            if version.decoded(variant, record) is Err {
                let i = choose|i: int|
                    0 <= i < declared.len() && (#[trigger] record.mismatch_at(
                        kind,
                        declared[i],
                    )) is Some;
                let field = declared[i];
                assert(kind.has_field(field));
                assert(kind.is_required(field) && !record.is_given(field) || kind.has_field(field)
                    && record.is_mistyped(field));
            } else {
                assert forall|field: FieldName|
                    !(kind.is_required(field) && !record.is_given(field)) && !(kind.has_field(
                        field,
                    ) && record.is_mistyped(field)) by {
                    if kind.has_field(field) {
                        let i = choose|i: int| 0 <= i < declared.len() && declared[i] == field;
                        assert(record.mismatch_at(kind, declared[i]) is None);
                    }
                }
            }
        }
    }
}

/// A version tag is refused exactly when it names no generation, and
/// then whatever the record: only the tags of the two generations are
/// known.
pub proof fn lemma_unknown_tag_is_unsupported(tag: u32, variant: Seq<char>, record: RecordView)
    ensures
        request_of(tag, variant, record) == Err::<RequestView, RequestErrorView>(
            RequestErrorView::UnsupportedVersion { tag },
        ) <==> tag != 1 && tag != 2,
{
}

/// What decoding accepts is a whole request: of a variant that the
/// generation has, named as the record was, with every field that the
/// variant requires and none that it does not have, each with the value
/// that the record gives it.
pub proof fn lemma_decoded_is_a_whole_request(
    version: SchemaVersion,
    variant: Seq<char>,
    record: RecordView,
)
    ensures
        version.decoded(variant, record) matches Ok(view) ==> {
            &&& version.admits(view.kind)
            &&& view.kind.wire_name() == variant
            &&& view.well_formed()
            &&& view.fields == record.fields_of(view.kind)
            &&& forall|field: FieldName| #[trigger]
                view.fields.has(field) <==> view.kind.has_field(field) && record.is_given(field)
        },
{
    if version.decoded(variant, record) is Ok {
        let view = version.decoded(variant, record)->Ok_0;
        lemma_decoding_fails_exactly_when_malformed(version, variant, record);
        lemma_fields_of_each_kind();
        assert forall|field: FieldName| view.kind.is_required(field) implies view.fields.has(
            field,
        ) by {
            assert(record.is_given(field));
        }
    }
}

/// A request of the first generation, taken apart into its variant name
/// and its fields, decodes to itself under that generation.
pub proof fn lemma_v1_decodes_to_itself(request: SigstoreVerificationInputV1)
    ensures
        SchemaVersion::V1.decoded(request@.kind.wire_name(), request@.fields.as_record()) == Ok::<
            RequestView,
            RequestErrorView,
        >(request@),
{
    lemma_name_denotes_its_kind(request@.kind);
    lemma_first_mismatch_in_order(request@.fields.as_record(), request@.kind);
    lemma_fields_of_each_kind();
}

/// A request of the second generation, taken apart into its variant name
/// and its fields, decodes to itself under that generation.
pub proof fn lemma_v2_decodes_to_itself(request: SigstoreVerificationInputV2)
    ensures
        SchemaVersion::V2.decoded(request@.kind.wire_name(), request@.fields.as_record()) == Ok::<
            RequestView,
            RequestErrorView,
        >(request@),
{
    lemma_name_denotes_its_kind(request@.kind);
    lemma_first_mismatch_in_order(request@.fields.as_record(), request@.kind);
    lemma_fields_of_each_kind();
}

} // verus!
