//! The sample configuration written on first run.
//!
//! When no configuration file exists, the monitor writes this two-entry
//! example and exits so the user can edit it. The text and the two
//! descriptors it encodes are fixed here; reading and writing the file is
//! the caller's business.

use vstd::prelude::*;
use crate::endpoint::Endpoint;

verus! {

use vstd::string::StringExecFns;

/// The text of the sample configuration: a list of two endpoint objects in
/// the JSON-with-comments-and-trailing-commas dialect, one probing
/// `https://example.com` every 60 seconds expecting the default status,
/// one probing a page every 600 seconds expecting 404.
pub open spec fn sample_config_model() -> Seq<char> {
    "
[
  {
    url: \"https://example.com\",
    interval: 60,
  },
  {
    url: \"https://example.com/fake_page_should_404\",
    interval: 600, // 10 minutes
    expect: 404, // this URL should return 404 Not Found
  },
]
"@
}

/// Produces the sample configuration text, exactly `sample_config_model`.
pub fn sample_config_text() -> (r: String)
    ensures
        r@ == sample_config_model(),
{
    String::from_str(
        "
[
  {
    url: \"https://example.com\",
    interval: 60,
  },
  {
    url: \"https://example.com/fake_page_should_404\",
    interval: 600, // 10 minutes
    expect: 404, // this URL should return 404 Not Found
  },
]
",
    )
}

/// The two endpoint descriptors the sample configuration encodes:
/// `https://example.com` at interval 60 with no expected status
/// configured, and `https://example.com/fake_page_should_404` at interval
/// 600 expecting 404.
pub fn sample_endpoints() -> (r: Vec<Endpoint>)
    ensures
        r@.len() == 2,
        r@[0]@.url == "https://example.com"@,
        r@[0]@.interval == 60,
        r@[0]@.expect is None,
        r@[1]@.url == "https://example.com/fake_page_should_404"@,
        r@[1]@.interval == 600,
        r@[1]@.expect == Some(404u16),
{
    let mut r: Vec<Endpoint> = Vec::new();
    r.push(Endpoint::new(String::from_str("https://example.com"), 60, None));
    r.push(Endpoint::new(String::from_str("https://example.com/fake_page_should_404"), 600, Some(404)));
    r
}

} // verus!
