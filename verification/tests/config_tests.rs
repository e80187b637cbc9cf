use std::collections::BTreeMap;

use healthcheck::config::{sample_config_text, sample_endpoints};
use healthcheck::endpoint::Endpoint;

#[test]
fn sample_text_is_the_documented_example() {
    let text = sample_config_text();
    assert!(text.contains("url: \"https://example.com\","));
    assert!(text.contains("interval: 60,"));
    assert!(text.contains("url: \"https://example.com/fake_page_should_404\","));
    assert!(text.contains("interval: 600, // 10 minutes"));
    assert!(text.contains("expect: 404, // this URL should return 404 Not Found"));
}

#[test]
fn sample_endpoints_hold_the_documented_values() {
    let endpoints = sample_endpoints();
    assert_eq!(endpoints.len(), 2);
    assert_eq!(endpoints[0].url, "https://example.com");
    assert_eq!(endpoints[0].interval, 60);
    assert_eq!(endpoints[0].expect, None);
    assert_eq!(endpoints[1].url, "https://example.com/fake_page_should_404");
    assert_eq!(endpoints[1].interval, 600);
    assert_eq!(endpoints[1].expect, Some(404));
}

#[test]
fn sample_text_parses_back_to_the_sample_endpoints() {
    let text = sample_config_text();
    let raw: Vec<BTreeMap<String, serde_json::Value>> =
        json5::from_str(&text).expect("the sample configuration must parse");
    let parsed: Vec<Endpoint> = raw
        .iter()
        .map(|entry| {
            let url = entry
                .get("url")
                .and_then(|v| v.as_str())
                .expect("url is a required string field")
                .to_string();
            let interval = entry
                .get("interval")
                .and_then(|v| v.as_u64())
                .expect("interval is a required integer field");
            let expect = entry.get("expect").map(|v| {
                v.as_u64().expect("expect is an integer field") as u16
            });
            Endpoint::new(url, interval, expect)
        })
        .collect();
    assert_eq!(parsed, sample_endpoints());
}
