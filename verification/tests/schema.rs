use host_capabilities::text::same_text;
use host_capabilities::{
    FieldName, Mismatch, RecordFields, RequestError, RequestKind, SchemaVersion, Slot,
};

const KINDS: [RequestKind; 6] = [
    RequestKind::OciManifestDigest,
    RequestKind::SigstorePubKeyVerify,
    RequestKind::SigstoreKeylessVerify,
    RequestKind::SigstoreKeylessPrefixVerify,
    RequestKind::SigstoreGithubActionsVerify,
    RequestKind::DNSLookupHost,
];

#[test]
fn each_kind_has_its_variant_name() {
    assert_eq!(RequestKind::OciManifestDigest.name(), "OciManifestDigest");
    assert_eq!(RequestKind::SigstorePubKeyVerify.name(), "SigstorePubKeyVerify");
    assert_eq!(RequestKind::SigstoreKeylessVerify.name(), "SigstoreKeylessVerify");
    assert_eq!(RequestKind::SigstoreKeylessPrefixVerify.name(), "SigstoreKeylessPrefixVerify");
    assert_eq!(RequestKind::SigstoreGithubActionsVerify.name(), "SigstoreGithubActionsVerify");
    assert_eq!(RequestKind::DNSLookupHost.name(), "DNSLookupHost");
}

#[test]
fn a_variant_name_denotes_its_kind_and_no_other() {
    for kind in KINDS {
        assert_eq!(RequestKind::from_name(kind.name()), Some(kind));
    }
    for (i, a) in KINDS.iter().enumerate() {
        for (j, b) in KINDS.iter().enumerate() {
            assert_eq!(a.name() == b.name(), i == j);
        }
    }
}

#[test]
fn other_names_denote_no_kind() {
    for name in [
        "",
        "Sigstore",
        "sigstorepubkeyverify",
        "SigstorePubKeyVerify\n",
        "DNSLookupHosts",
        "dnsLookupHost",
        "SigstoreKeylessPrefixVerifx",
        "SigstoreGithubActionsVerifi",
        "OciManifestDigest\u{e9}",
    ] {
        assert_eq!(RequestKind::from_name(name), None);
    }
}

#[test]
fn each_field_has_its_name() {
    assert_eq!(FieldName::Image.name(), "image");
    assert_eq!(FieldName::PubKeys.name(), "pub_keys");
    assert_eq!(FieldName::Keyless.name(), "keyless");
    assert_eq!(FieldName::KeylessPrefix.name(), "keyless_prefix");
    assert_eq!(FieldName::Owner.name(), "owner");
    assert_eq!(FieldName::Repo.name(), "repo");
    assert_eq!(FieldName::Annotations.name(), "annotations");
    assert_eq!(FieldName::Host.name(), "host");
}

#[test]
fn each_generation_has_its_variants() {
    let v1 = [false, true, true, false, false, false];
    let v2 = [false, true, true, true, true, false];
    for (i, kind) in KINDS.iter().enumerate() {
        assert_eq!(SchemaVersion::V1.has_variant(*kind), v1[i]);
        assert_eq!(SchemaVersion::V2.has_variant(*kind), v2[i]);
    }
}

#[test]
fn the_second_generation_has_every_variant_of_the_first() {
    for kind in KINDS {
        if SchemaVersion::V1.has_variant(kind) {
            assert!(SchemaVersion::V2.has_variant(kind));
        }
    }
}

#[test]
fn no_generation_has_the_dns_lookup() {
    for version in [SchemaVersion::V1, SchemaVersion::V2] {
        assert!(!version.has_variant(RequestKind::DNSLookupHost));
        assert!(!version.has_variant(RequestKind::OciManifestDigest));
    }
}

#[test]
fn default_fields_are_all_empty() {
    let fields = RecordFields::default();
    assert_eq!(
        fields,
        RecordFields {
            image: Slot::Absent,
            pub_keys: Slot::Absent,
            keyless: Slot::Absent,
            keyless_prefix: Slot::Absent,
            owner: Slot::Absent,
            repo: Slot::Absent,
            annotations: Slot::Absent,
        }
    );
}

#[test]
fn a_slot_gives_a_required_value_or_says_what_is_wrong() {
    assert_eq!(
        Slot::Given("reg/app:latest".to_string())
            .required("SigstorePubKeyVerify", FieldName::Image),
        Ok("reg/app:latest".to_string())
    );
    assert_eq!(
        Slot::<String>::Absent.required("SigstorePubKeyVerify", FieldName::Image),
        Err(RequestError::MalformedRequest {
            variant: "SigstorePubKeyVerify".to_string(),
            mismatch: Mismatch::MissingField(FieldName::Image),
        })
    );
    assert_eq!(
        Slot::<Vec<String>>::Mistyped.required("SigstorePubKeyVerify", FieldName::PubKeys),
        Err(RequestError::MalformedRequest {
            variant: "SigstorePubKeyVerify".to_string(),
            mismatch: Mismatch::WrongType(FieldName::PubKeys),
        })
    );
    assert_eq!(
        Slot::<String>::Null.required("SigstoreGithubActionsVerify", FieldName::Owner),
        Err(RequestError::MalformedRequest {
            variant: "SigstoreGithubActionsVerify".to_string(),
            mismatch: Mismatch::WrongType(FieldName::Owner),
        })
    );
}

#[test]
fn a_slot_gives_an_optional_value_or_says_what_is_wrong() {
    assert_eq!(
        Slot::Given("example-repo".to_string())
            .optional("SigstoreGithubActionsVerify", FieldName::Repo),
        Ok(Some("example-repo".to_string()))
    );
    assert_eq!(
        Slot::<String>::Absent.optional("SigstoreGithubActionsVerify", FieldName::Repo),
        Ok(None)
    );
    assert_eq!(
        Slot::<String>::Null.optional("SigstoreGithubActionsVerify", FieldName::Repo),
        Ok(None)
    );
    assert_eq!(
        Slot::<String>::Mistyped.optional("SigstoreGithubActionsVerify", FieldName::Repo),
        Err(RequestError::MalformedRequest {
            variant: "SigstoreGithubActionsVerify".to_string(),
            mismatch: Mismatch::WrongType(FieldName::Repo),
        })
    );
}

#[test]
fn same_text_compares_character_for_character() {
    assert!(same_text("", ""));
    assert!(same_text("image", "image"));
    assert!(!same_text("image", "images"));
    assert!(!same_text("images", "image"));
    assert!(!same_text("image", "imagf"));
    assert!(!same_text("image", "Image"));
    assert!(!same_text("", "a"));
    assert!(same_text("h\u{e9}llo \u{1f600}", "h\u{e9}llo \u{1f600}"));
    assert!(!same_text("h\u{e9}llo", "hello"));
    assert!(!same_text("\u{e9}", "\u{e8}"));
}
