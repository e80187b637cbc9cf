//! Endpoint descriptors: one URL with its polling interval and expected
//! HTTP status.

use vstd::prelude::*;

verus! {

/// The status a probe is compared against when the descriptor names none.
pub const DEFAULT_EXPECTED_STATUS: u16 = 200;

/// One endpoint to monitor: a URL, the number of seconds between probes,
/// and an optional expected HTTP status (200 when absent). Immutable once
/// loaded.
#[derive(Debug, Clone, PartialEq)]
pub struct Endpoint {
    pub url: String,
    pub interval: u64,
    pub expect: Option<u16>,
}

/// The mathematical model of a descriptor: the URL as a character
/// sequence, the interval, and the optional expected status.
#[verifier::ext_equal]
pub struct EndpointModel {
    pub url: Seq<char>,
    pub interval: u64,
    pub expect: Option<u16>,
}

impl View for Endpoint {
    type V = EndpointModel;

    open spec fn view(&self) -> EndpointModel {
        EndpointModel { url: self.url@, interval: self.interval, expect: self.expect }
    }
}

/// The status a probe of this endpoint is compared against: the configured
/// one, or 200 when none was configured.
pub open spec fn expected_of(e: EndpointModel) -> u16 {
    match e.expect {
        Some(s) => s,
        None => DEFAULT_EXPECTED_STATUS,
    }
}

/// The data-model invariant for a descriptor: a non-empty URL, a positive
/// polling interval, and an expected status that is a plausible HTTP
/// status, in [100, 599]. A descriptor loaded from configuration is not
/// forced to satisfy it; what happens to one that does not is left open.
pub open spec fn well_formed(e: EndpointModel) -> bool {
    &&& e.url.len() > 0
    &&& e.interval > 0
    &&& 100 <= expected_of(e) <= 599
}

impl Endpoint {
    pub fn new(url: String, interval: u64, expect: Option<u16>) -> (r: Endpoint)
        ensures
            r@.url == url@,
            r@.interval == interval,
            r@.expect == expect,
    {
        Endpoint { url, interval, expect }
    }

    /// The status this endpoint's probes are compared against.
    pub fn expected_status(&self) -> (r: u16)
        ensures
            r == expected_of(self@),
    {
        match self.expect {
            Some(s) => s,
            None => DEFAULT_EXPECTED_STATUS,
        }
    }

    /// Whether this descriptor satisfies the data-model invariant
    /// `well_formed`.
    pub fn is_well_formed(&self) -> (r: bool)
        ensures
            r == well_formed(self@),
    {
        let expected = self.expected_status();
        !self.url.as_str().is_empty() && self.interval > 0 && 100 <= expected && expected <= 599
    }
}

} // verus!
