use dependency_learner::config::{ConfigError, DependencyLearnerRoot};

#[test]
fn absent_payload_keeps_default() {
    let mut root = DependencyLearnerRoot::new();
    assert_eq!(root.on_configure(None), Ok(()));
    assert_eq!(root.config.response_header, None);
}

#[test]
fn named_header_is_installed() {
    let mut root = DependencyLearnerRoot::new();
    let raw = br#"{"response_header":"x-dep-edge"}"#.to_vec();
    assert_eq!(root.on_configure(Some(raw)), Ok(()));
    assert_eq!(root.config.response_header, Some("x-dep-edge".to_string()));
}

#[test]
fn empty_object_means_no_publication_header() {
    let mut root = DependencyLearnerRoot::new();
    assert_eq!(root.on_configure(Some(b"{}".to_vec())), Ok(()));
    assert_eq!(root.config.response_header, None);
}

#[test]
fn null_member_means_no_publication_header() {
    let mut root = DependencyLearnerRoot::new();
    let raw = br#"{"response_header":null}"#.to_vec();
    assert_eq!(root.on_configure(Some(raw)), Ok(()));
    assert_eq!(root.config.response_header, None);
}

#[test]
fn unrecognized_fields_are_ignored() {
    let mut root = DependencyLearnerRoot::new();
    let raw = br#"{"other":[1,2],"response_header":"x-edge","more":{"a":1}}"#.to_vec();
    assert_eq!(root.on_configure(Some(raw)), Ok(()));
    assert_eq!(root.config.response_header, Some("x-edge".to_string()));
}

#[test]
fn malformed_payload_is_rejected() {
    let mut root = DependencyLearnerRoot::new();
    let r = root.on_configure(Some(b"not json at all".to_vec()));
    assert_eq!(r, Err(ConfigError::Malformed));
    assert_eq!(root.config.response_header, None);
}

#[test]
fn non_object_payload_is_rejected() {
    let mut root = DependencyLearnerRoot::new();
    assert_eq!(root.on_configure(Some(b"[1,2]".to_vec())), Err(ConfigError::Malformed));
    assert_eq!(root.on_configure(Some(b"42".to_vec())), Err(ConfigError::Malformed));
    assert_eq!(root.on_configure(Some(b"null".to_vec())), Err(ConfigError::Malformed));
}

#[test]
fn wrongly_typed_member_is_rejected() {
    let mut root = DependencyLearnerRoot::new();
    let raw = br#"{"response_header":5}"#.to_vec();
    assert_eq!(root.on_configure(Some(raw)), Err(ConfigError::Malformed));
}

#[test]
fn rejection_keeps_prior_configuration() {
    let mut root = DependencyLearnerRoot::new();
    let good = br#"{"response_header":"x-dep-edge"}"#.to_vec();
    assert_eq!(root.on_configure(Some(good)), Ok(()));
    let r = root.on_configure(Some(b"{broken".to_vec()));
    assert_eq!(r, Err(ConfigError::Malformed));
    assert_eq!(root.config.response_header, Some("x-dep-edge".to_string()));
}

#[test]
fn observers_copy_the_current_configuration() {
    let mut root = DependencyLearnerRoot::new();
    let raw = br#"{"response_header":"x-dep-edge"}"#.to_vec();
    assert_eq!(root.on_configure(Some(raw)), Ok(()));
    let learner = root.create_http_context();
    assert!(!learner.notified);
    assert_eq!(learner.authority, None);
    assert_eq!(learner.path, None);
    assert_eq!(learner.upstream_cluster, None);
    assert_eq!(learner.downstream_peer_certificate, None);
    assert_eq!(learner.config.response_header, Some("x-dep-edge".to_string()));
    assert_eq!(root.config.response_header, Some("x-dep-edge".to_string()));
}
