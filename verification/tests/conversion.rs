use std::collections::HashMap;

use host_capabilities::verification::{KeylessInfo, KeylessPrefixInfo};
use host_capabilities::{
    CallbackRequestType, RequestKind, SigstoreVerificationInputV1, SigstoreVerificationInputV2,
};

fn annotations(pairs: &[(&str, &str)]) -> HashMap<String, String> {
    let mut map = HashMap::new();
    for (key, value) in pairs {
        map.insert(key.to_string(), value.to_string());
    }
    map
}

fn identity(issuer: &str, subject: &str) -> KeylessInfo {
    KeylessInfo { issuer: issuer.to_string(), subject: subject.to_string() }
}

fn prefix_identity(issuer: &str, url_prefix: &str) -> KeylessPrefixInfo {
    KeylessPrefixInfo { issuer: issuer.to_string(), url_prefix: url_prefix.to_string() }
}

#[test]
fn v1_pub_key_verify_converts_with_keys_in_order_and_no_annotations() {
    let request = SigstoreVerificationInputV1::SigstorePubKeyVerify {
        image: "reg/busybox:1.0.0".to_string(),
        pub_keys: vec!["PEM1".to_string(), "PEM2".to_string()],
        annotations: None,
    };
    let canonical: CallbackRequestType = request.into();
    match canonical {
        CallbackRequestType::SigstorePubKeyVerify { image, pub_keys, annotations } => {
            assert_eq!(image, "reg/busybox:1.0.0");
            assert_eq!(pub_keys.len(), 2);
            assert_eq!(pub_keys[0], "PEM1");
            assert_eq!(pub_keys[1], "PEM2");
            assert!(annotations.is_none());
        }
        other => panic!("wrong variant: {:?}", other),
    }
}

#[test]
fn v2_github_actions_verify_converts_with_owner_and_annotation() {
    let request = SigstoreVerificationInputV2::SigstoreGithubActionsVerify {
        image: "reg/app:latest".to_string(),
        owner: "octocat".to_string(),
        repo: None,
        annotations: Some(annotations(&[("env", "prod")])),
    };
    let canonical = CallbackRequestType::from(request);
    match canonical {
        CallbackRequestType::SigstoreGithubActionsVerify { image, owner, repo, annotations } => {
            assert_eq!(image, "reg/app:latest");
            assert_eq!(owner, "octocat");
            assert!(repo.is_none());
            let annotations = annotations.expect("annotations were given");
            assert_eq!(annotations.len(), 1);
            assert_eq!(annotations.get("env"), Some(&"prod".to_string()));
        }
        other => panic!("wrong variant: {:?}", other),
    }
}

#[test]
fn v1_keyless_verify_converts_field_for_field() {
    let request = SigstoreVerificationInputV1::SigstoreKeylessVerify {
        image: "registry.testing.lan/busybox:1.0.0".to_string(),
        keyless: vec![
            identity("https://issuer.example", "alice@example.com"),
            identity("https://other.example", "bob@example.com"),
        ],
        annotations: Some(annotations(&[("env", "prod"), ("team", "core")])),
    };
    let canonical: CallbackRequestType = request.clone().into();
    assert_eq!(
        canonical,
        CallbackRequestType::SigstoreKeylessVerify {
            image: "registry.testing.lan/busybox:1.0.0".to_string(),
            keyless: vec![
                identity("https://issuer.example", "alice@example.com"),
                identity("https://other.example", "bob@example.com"),
            ],
            annotations: Some(annotations(&[("env", "prod"), ("team", "core")])),
        }
    );
    assert_ne!(
        canonical,
        CallbackRequestType::SigstoreKeylessVerify {
            image: "registry.testing.lan/busybox:1.0.0".to_string(),
            keyless: vec![
                identity("https://other.example", "bob@example.com"),
                identity("https://issuer.example", "alice@example.com"),
            ],
            annotations: Some(annotations(&[("env", "prod"), ("team", "core")])),
        }
    );
}

#[test]
fn v2_pub_key_verify_converts_field_for_field() {
    let request = SigstoreVerificationInputV2::SigstorePubKeyVerify {
        image: "reg/busybox:1.0.0".to_string(),
        pub_keys: vec!["PEM2".to_string(), "PEM1".to_string(), "PEM2".to_string()],
        annotations: Some(annotations(&[("env", "prod")])),
    };
    assert_eq!(
        CallbackRequestType::from(request),
        CallbackRequestType::SigstorePubKeyVerify {
            image: "reg/busybox:1.0.0".to_string(),
            pub_keys: vec!["PEM2".to_string(), "PEM1".to_string(), "PEM2".to_string()],
            annotations: Some(annotations(&[("env", "prod")])),
        }
    );
}

#[test]
fn v2_keyless_verify_converts_field_for_field() {
    let request = SigstoreVerificationInputV2::SigstoreKeylessVerify {
        image: "reg/app:latest".to_string(),
        keyless: vec![identity("https://issuer.example", "alice@example.com")],
        annotations: None,
    };
    assert_eq!(
        CallbackRequestType::from(request),
        CallbackRequestType::SigstoreKeylessVerify {
            image: "reg/app:latest".to_string(),
            keyless: vec![identity("https://issuer.example", "alice@example.com")],
            annotations: None,
        }
    );
}

#[test]
fn v2_keyless_prefix_verify_converts_field_for_field() {
    let request = SigstoreVerificationInputV2::SigstoreKeylessPrefixVerify {
        image: "reg/app:latest".to_string(),
        keyless_prefix: vec![
            prefix_identity("https://issuer.example", "https://github.com/octocat/"),
            prefix_identity("https://issuer.example", "https://github.com/hubot/"),
        ],
        annotations: Some(annotations(&[("stage", "release")])),
    };
    assert_eq!(
        CallbackRequestType::from(request),
        CallbackRequestType::SigstoreKeylessPrefixVerify {
            image: "reg/app:latest".to_string(),
            keyless_prefix: vec![
                prefix_identity("https://issuer.example", "https://github.com/octocat/"),
                prefix_identity("https://issuer.example", "https://github.com/hubot/"),
            ],
            annotations: Some(annotations(&[("stage", "release")])),
        }
    );
}

#[test]
fn v2_github_actions_verify_keeps_a_given_repo() {
    let request = SigstoreVerificationInputV2::SigstoreGithubActionsVerify {
        image: "reg/app:latest".to_string(),
        owner: "octocat".to_string(),
        repo: Some("example-repo".to_string()),
        annotations: None,
    };
    assert_eq!(
        CallbackRequestType::from(request),
        CallbackRequestType::SigstoreGithubActionsVerify {
            image: "reg/app:latest".to_string(),
            owner: "octocat".to_string(),
            repo: Some("example-repo".to_string()),
            annotations: None,
        }
    );
}

#[test]
fn absent_annotations_and_empty_annotations_stay_apart() {
    let absent: CallbackRequestType = SigstoreVerificationInputV1::SigstorePubKeyVerify {
        image: "reg/busybox:1.0.0".to_string(),
        pub_keys: vec!["PEM1".to_string()],
        annotations: None,
    }
    .into();
    let empty: CallbackRequestType = SigstoreVerificationInputV1::SigstorePubKeyVerify {
        image: "reg/busybox:1.0.0".to_string(),
        pub_keys: vec!["PEM1".to_string()],
        annotations: Some(HashMap::new()),
    }
    .into();
    match &absent {
        CallbackRequestType::SigstorePubKeyVerify { annotations, .. } => {
            assert!(annotations.is_none())
        }
        other => panic!("wrong variant: {:?}", other),
    }
    match &empty {
        CallbackRequestType::SigstorePubKeyVerify { annotations, .. } => {
            assert_eq!(annotations, &Some(HashMap::new()))
        }
        other => panic!("wrong variant: {:?}", other),
    }
    assert_ne!(absent, empty);
}

#[test]
fn an_empty_key_list_and_empty_strings_are_kept() {
    let canonical: CallbackRequestType = SigstoreVerificationInputV1::SigstorePubKeyVerify {
        image: String::new(),
        pub_keys: Vec::new(),
        annotations: None,
    }
    .into();
    assert_eq!(
        canonical,
        CallbackRequestType::SigstorePubKeyVerify {
            image: String::new(),
            pub_keys: Vec::new(),
            annotations: None,
        }
    );
}

#[test]
fn both_generations_give_the_same_canonical_request() {
    let first: CallbackRequestType = SigstoreVerificationInputV1::SigstoreKeylessVerify {
        image: "reg/app:latest".to_string(),
        keyless: vec![identity("https://issuer.example", "alice@example.com")],
        annotations: Some(annotations(&[("env", "prod")])),
    }
    .into();
    let second = CallbackRequestType::from(SigstoreVerificationInputV2::SigstoreKeylessVerify {
        image: "reg/app:latest".to_string(),
        keyless: vec![identity("https://issuer.example", "alice@example.com")],
        annotations: Some(annotations(&[("env", "prod")])),
    });
    assert_eq!(first, second);
}

#[test]
fn different_requests_convert_to_different_canonical_requests() {
    let one: CallbackRequestType = SigstoreVerificationInputV1::SigstorePubKeyVerify {
        image: "reg/app:1".to_string(),
        pub_keys: vec!["PEM1".to_string()],
        annotations: None,
    }
    .into();
    let other: CallbackRequestType = SigstoreVerificationInputV1::SigstorePubKeyVerify {
        image: "reg/app:2".to_string(),
        pub_keys: vec!["PEM1".to_string()],
        annotations: None,
    }
    .into();
    assert_ne!(one, other);
}

#[test]
fn the_canonical_request_tells_its_kind() {
    let digest = CallbackRequestType::OciManifestDigest { image: "reg/app:latest".to_string() };
    assert_eq!(digest.kind(), RequestKind::OciManifestDigest);
    let lookup = CallbackRequestType::DNSLookupHost { host: "example.com".to_string() };
    assert_eq!(lookup.kind(), RequestKind::DNSLookupHost);
    let converted: CallbackRequestType = SigstoreVerificationInputV1::SigstorePubKeyVerify {
        image: "reg/app:latest".to_string(),
        pub_keys: vec![],
        annotations: None,
    }
    .into();
    assert_eq!(converted.kind(), RequestKind::SigstorePubKeyVerify);
    assert_eq!(
        CallbackRequestType::from(SigstoreVerificationInputV2::SigstoreKeylessVerify {
            image: "reg/app:latest".to_string(),
            keyless: vec![],
            annotations: None,
        })
        .kind(),
        RequestKind::SigstoreKeylessVerify
    );
    assert_eq!(
        CallbackRequestType::from(SigstoreVerificationInputV2::SigstoreKeylessPrefixVerify {
            image: "reg/app:latest".to_string(),
            keyless_prefix: vec![],
            annotations: None,
        })
        .kind(),
        RequestKind::SigstoreKeylessPrefixVerify
    );
    assert_eq!(
        CallbackRequestType::from(SigstoreVerificationInputV2::SigstoreGithubActionsVerify {
            image: "reg/app:latest".to_string(),
            owner: "octocat".to_string(),
            repo: None,
            annotations: None,
        })
        .kind(),
        RequestKind::SigstoreGithubActionsVerify
    );
}
