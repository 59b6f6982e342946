//! The ways in which a node can learn the address under which others reach
//! it. Which one is used is a matter of configuration; asking is left to the
//! caller.

use vstd::prelude::*;
use vstd::string::*;

verus! {

/// Ask a public service which address a request comes from.
#[derive(Clone, Copy, Debug, PartialEq, Eq)]
pub struct AmazonCheckIP;

/// Take the address from the configuration.
#[derive(Debug, PartialEq, Eq)]
pub struct StaticIP(String);

impl StaticIP {
    /// The strategy that gives `ip`, the text of an address.
    pub fn new(ip: String) -> (configured: StaticIP)
        ensures
            configured@ == ip@,
    {
        StaticIP(ip)
    }

    /// The configured text.
    pub fn as_str(&self) -> (ip: &str)
        ensures
            ip@ == self@,
    {
        self.0.as_str()
    }
}

impl View for StaticIP {
    type V = Seq<char>;

    closed spec fn view(&self) -> Seq<char> {
        self.0@
    }
}

impl AmazonCheckIP {
    /// Where the service is asked.
    pub fn url(&self) -> (url: &'static str)
        ensures
            url@ == "http://checkip.amazonaws.com"@,
    {
        "http://checkip.amazonaws.com"
    }
}

/// The strategy that a node uses, chosen once at start-up.
#[derive(Debug, PartialEq, Eq)]
pub enum AddressDiscovery {
    Static(StaticIP),
    AmazonCheckIP(AmazonCheckIP),
}

} // verus!
