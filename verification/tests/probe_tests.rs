use healthcheck::endpoint::Endpoint;
use healthcheck::probe::{classify, ProbeOutcome, ProbeResult};

fn endpoint(url: &str, interval: u64, expect: Option<u16>) -> Endpoint {
    Endpoint::new(url.to_string(), interval, expect)
}

#[test]
fn default_expected_status_is_200() {
    let e = endpoint("https://example.com", 60, None);
    assert_eq!(e.expected_status(), 200);
}

#[test]
fn configured_expected_status_wins() {
    let e = endpoint("https://example.com", 60, Some(404));
    assert_eq!(e.expected_status(), 404);
}

#[test]
fn well_formedness_follows_the_data_model() {
    assert!(endpoint("https://example.com", 60, None).is_well_formed());
    assert!(endpoint("https://example.com", 600, Some(404)).is_well_formed());
    assert!(!endpoint("", 60, None).is_well_formed());
    assert!(!endpoint("https://example.com", 0, None).is_well_formed());
    assert!(!endpoint("https://example.com", 60, Some(99)).is_well_formed());
    assert!(!endpoint("https://example.com", 60, Some(600)).is_well_formed());
}

#[test]
fn observed_200_with_default_expectation_is_success() {
    let e = endpoint("https://example.com", 60, None);
    let r = classify(&e, "2024-01-01 00:00:00".to_string(), ProbeOutcome::Response {
        status: 200,
    });
    match r {
        ProbeResult::Success { url, observed_status, timestamp } => {
            assert_eq!(url, "https://example.com");
            assert_eq!(observed_status, 200);
            assert_eq!(timestamp, "2024-01-01 00:00:00");
        }
        other => panic!("expected Success, got {:?}", other),
    }
}

#[test]
fn observed_404_with_default_expectation_is_mismatch() {
    let e = endpoint("https://example.com", 60, None);
    let r = classify(&e, "ts".to_string(), ProbeOutcome::Response { status: 404 });
    match r {
        ProbeResult::StatusMismatch { url, expected_status, observed_status, .. } => {
            assert_eq!(url, "https://example.com");
            assert_eq!(expected_status, 200);
            assert_eq!(observed_status, 404);
        }
        other => panic!("expected StatusMismatch, got {:?}", other),
    }
}

#[test]
fn expecting_404_and_observing_404_is_success() {
    let e = endpoint("https://example.com/fake_page_should_404", 600, Some(404));
    let r = classify(&e, "ts".to_string(), ProbeOutcome::Response { status: 404 });
    assert!(matches!(r, ProbeResult::Success { observed_status: 404, .. }));
}

#[test]
fn transport_failure_carries_its_description() {
    let e = endpoint("https://unreachable.invalid", 60, None);
    let r = classify(&e, "ts".to_string(), ProbeOutcome::Failure {
        description: "dns error: no such host".to_string(),
    });
    match r {
        ProbeResult::TransportFailure { url, error_description, .. } => {
            assert_eq!(url, "https://unreachable.invalid");
            assert_eq!(error_description, "dns error: no such host");
            assert!(!error_description.is_empty());
        }
        other => panic!("expected TransportFailure, got {:?}", other),
    }
}

#[test]
fn every_outcome_yields_exactly_one_result_kind() {
    let e = endpoint("https://example.com", 60, None);
    let outcomes = vec![
        ProbeOutcome::Response { status: 200 },
        ProbeOutcome::Response { status: 503 },
        ProbeOutcome::Failure { description: "timeout".to_string() },
    ];
    for o in outcomes {
        let r = classify(&e, "ts".to_string(), o);
        let kinds = [
            matches!(r, ProbeResult::Success { .. }),
            matches!(r, ProbeResult::StatusMismatch { .. }),
            matches!(r, ProbeResult::TransportFailure { .. }),
        ];
        assert_eq!(kinds.iter().filter(|k| **k).count(), 1);
    }
}

#[test]
fn repeated_identical_probes_classify_identically() {
    let e = endpoint("https://example.com", 60, None);
    let first = classify(&e, "t1".to_string(), ProbeOutcome::Response { status: 500 });
    let second = classify(&e, "t2".to_string(), ProbeOutcome::Response { status: 500 });
    match (&first, &second) {
        (
            ProbeResult::StatusMismatch {
                url: u1, expected_status: e1, observed_status: o1, ..
            },
            ProbeResult::StatusMismatch {
                url: u2, expected_status: e2, observed_status: o2, ..
            },
        ) => {
            assert_eq!(u1, u2);
            assert_eq!(e1, e2);
            assert_eq!(o1, o2);
        }
        other => panic!("expected two StatusMismatch results, got {:?}", other),
    }
}
