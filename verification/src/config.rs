//! The settings of the orchestrator and their defaults.

use crate::myip::{AddressDiscovery, AmazonCheckIP, StaticIP};
use vstd::prelude::*;
use vstd::string::*;
use vstd::utf8::encode_utf8;

verus! {

/// How the node learns its own address.
#[derive(Debug, PartialEq, Eq)]
pub enum AddressConfig {
    /// The address is given.
    Manual { ip: String },
    /// The address is asked of a public service.
    AWSCheckIP,
}

impl Default for AddressConfig {
    fn default() -> (config: AddressConfig)
        ensures
            config == AddressConfig::AWSCheckIP,
    {
        AddressConfig::AWSCheckIP
    }
}

impl AddressConfig {
    /// The strategy that the setting selects: the given address, or the
    /// public service.
    pub fn into_discovery(self) -> (strategy: AddressDiscovery)
        ensures
            match (self, strategy) {
                (AddressConfig::Manual { ip }, AddressDiscovery::Static(configured)) => configured@
                    == ip@,
                (AddressConfig::AWSCheckIP, AddressDiscovery::AmazonCheckIP(_)) => true,
                _ => false,
            },
    {
        match self {
            AddressConfig::Manual { ip } => AddressDiscovery::Static(StaticIP::new(ip)),
            AddressConfig::AWSCheckIP => AddressDiscovery::AmazonCheckIP(AmazonCheckIP),
        }
    }
}

/// The topic under which nodes announce themselves.
#[derive(Debug, PartialEq, Eq)]
pub enum TopicConfig {
    /// The topic as bytes.
    Binary { topic: Vec<u8> },
    /// The topic as text, whose UTF-8 bytes are the topic.
    String { topic: String },
}

impl TopicConfig {
    /// The bytes of the topic.
    pub open spec fn bytes(self) -> Seq<u8> {
        match self {
            TopicConfig::Binary { topic } => topic@,
            TopicConfig::String { topic } => encode_utf8(topic@),
        }
    }

    /// The bytes of the topic.
    pub fn into_bytes(self) -> (bytes: Vec<u8>)
        ensures
            bytes@ == self.bytes(),
    {
        match self {
            TopicConfig::Binary { topic } => topic,
            TopicConfig::String { topic } => topic.as_str().as_bytes_vec(),
        }
    }
}

/// The settings.
#[derive(Debug, PartialEq, Eq)]
pub struct Config {
    /// How the node learns its own address.
    pub address: AddressConfig,
    /// The topic under which nodes announce themselves.
    pub node_announcement_topic: TopicConfig,
    /// Seconds between two announcements.
    pub node_announcement_frequency: u16,
    /// Where the control API listens.
    pub parity_node: String,
    /// Seconds between two visible log lines about polling; zero for none.
    pub reveal_trace_every_secs: u64,
    /// The file to which additions are appended.
    pub orchestrator_additions_file: String,
}

/// Where the control API listens unless the settings say otherwise.
pub fn default_parity_node() -> (url: String)
    ensures
        url@ == "http://localhost:8545"@,
{
    String::from_str("http://localhost:8545")
}

/// Seconds between two announcements unless the settings say otherwise.
pub fn default_announcement_frequency() -> (seconds: u16)
    ensures
        seconds == 30,
{
    30
}

/// Seconds between two visible log lines about polling unless the settings
/// say otherwise.
pub fn default_reveal_trace_every_secs() -> (seconds: u64)
    ensures
        seconds == 10,
{
    10
}

/// The file to which additions are appended unless the settings say
/// otherwise.
pub fn default_orchestrator_additions_file() -> (path: String)
    ensures
        path@ == "parity-orchestrator-nodes"@,
{
    String::from_str("parity-orchestrator-nodes")
}

impl Config {
    /// The settings that name the topic and leave everything else at its
    /// default.
    pub fn with_defaults(node_announcement_topic: TopicConfig) -> (config: Config)
        ensures
            config.address == AddressConfig::AWSCheckIP,
            config.node_announcement_topic == node_announcement_topic,
            config.node_announcement_frequency == 30,
            config.parity_node@ == "http://localhost:8545"@,
            config.reveal_trace_every_secs == 10,
            config.orchestrator_additions_file@ == "parity-orchestrator-nodes"@,
    {
        Config {
            address: AddressConfig::AWSCheckIP,
            node_announcement_topic,
            node_announcement_frequency: default_announcement_frequency(),
            parity_node: default_parity_node(),
            reveal_trace_every_secs: default_reveal_trace_every_secs(),
            orchestrator_additions_file: default_orchestrator_additions_file(),
        }
    }
}

} // verus!
