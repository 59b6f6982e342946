//! What is exchanged with the control API and the message bus.

use vstd::prelude::*;
use vstd::slice::slice_to_vec;

verus! {

/// To whom a message is addressed.
#[derive(Debug, PartialEq, Eq)]
pub enum Receiver {
    Public(Vec<u8>),
    Identity(Vec<u8>),
}

/// Who sent a message.
#[derive(Debug, PartialEq, Eq)]
pub struct Sender(pub Vec<u8>);

/// A binary value: a topic, a padding, a subscription handle.
#[derive(Clone, Debug, PartialEq, Eq)]
pub struct Binary(pub Vec<u8>);

/// A message to post on the bus.
#[derive(Debug, PartialEq, Eq)]
pub struct Post {
    pub to: Option<Receiver>,
    pub from: Option<Sender>,
    pub topics: Vec<Binary>,
    pub payload: Vec<u8>,
    pub padding: Option<Binary>,
    pub priority: u64,
    pub ttl: u64,
}

/// Which messages a subscription asks for.
#[derive(Debug, PartialEq, Eq)]
pub struct MessageFilter {
    pub decrypt_with: Option<Binary>,
    pub from: Option<Sender>,
    pub topics: Vec<Binary>,
}

/// A message received from the bus.
#[derive(Debug, PartialEq, Eq)]
pub struct Message {
    pub from: Option<Sender>,
    pub recipient: Option<Sender>,
    pub ttl: u64,
    pub topics: Vec<Binary>,
    pub timestamp: u64,
    pub payload: Vec<u8>,
    pub padding: Option<Binary>,
}

/// A connected peer, as the control API reports it.
#[derive(Debug, PartialEq, Eq)]
pub struct Peer {
    pub id: Option<String>,
}

/// The peers of the node at one moment.
#[derive(Debug, PartialEq, Eq)]
pub struct Peers {
    pub active: u64,
    pub connected: u64,
    pub max: u64,
    pub peers: Vec<Peer>,
}

/// Priority of an announcement on the bus.
pub const ANNOUNCEMENT_PRIORITY: u64 = 100;

/// Seconds that an announcement lives on the bus.
pub const ANNOUNCEMENT_TTL: u64 = 60;

/// Whether `topics` holds one topic, `topic`.
pub open spec fn single_topic(topics: Seq<Binary>, topic: Seq<u8>) -> bool {
    topics.len() == 1 && topics[0].0@ == topic
}

impl Peer {
    /// Whether the peer reports `id` as its identity; the texts must be equal
    /// character for character.
    pub open spec fn has_id(self, id: Seq<char>) -> bool {
        self.id matches Some(text) && text@ == id
    }
}

/// Whether one of the peers reports `id` as its identity.
pub open spec fn reports(peers: Seq<Peer>, id: Seq<char>) -> bool {
    exists|i: int| 0 <= i < peers.len() && (#[trigger] peers[i]).has_id(id)
}

/// The payloads of messages, in their order.
pub open spec fn payloads_of(messages: Seq<Message>) -> Seq<Seq<u8>> {
    Seq::new(messages.len(), |i: int| messages[i].payload@)
}

/// Payloads as sequences of bytes.
pub open spec fn payload_views(payloads: Seq<Vec<u8>>) -> Seq<Seq<u8>> {
    Seq::new(payloads.len(), |i: int| payloads[i]@)
}

/// The post that announces `payload` under `topic`: to everyone, from no one
/// in particular, unpadded.
pub fn announcement_post(topic: &[u8], payload: &[u8]) -> (post: Post)
    ensures
        post.to is None,
        post.from is None,
        single_topic(post.topics@, topic@),
        post.payload@ == payload@,
        post.padding is None,
        post.priority == ANNOUNCEMENT_PRIORITY,
        post.ttl == ANNOUNCEMENT_TTL,
{
    let mut topics: Vec<Binary> = Vec::new();
    topics.push(Binary(slice_to_vec(topic)));
    Post {
        to: None,
        from: None,
        topics,
        payload: slice_to_vec(payload),
        padding: None,
        priority: ANNOUNCEMENT_PRIORITY,
        ttl: ANNOUNCEMENT_TTL,
    }
}

/// The filter that subscribes to `topic`: from anyone, undecrypted.
pub fn announcement_filter(topic: &[u8]) -> (filter: MessageFilter)
    ensures
        filter.decrypt_with is None,
        filter.from is None,
        single_topic(filter.topics@, topic@),
{
    let mut topics: Vec<Binary> = Vec::new();
    topics.push(Binary(slice_to_vec(topic)));
    MessageFilter { decrypt_with: None, from: None, topics }
}

/// The payloads of the messages that a poll returned, in their order.
pub fn payloads(messages: Vec<Message>) -> (out: Vec<Vec<u8>>)
    ensures
        payload_views(out@) == payloads_of(messages@),
{
    let mut out: Vec<Vec<u8>> = Vec::new();
    let mut i: usize = 0;
    while i < messages.len()
        invariant
            i <= messages.len(),
            out@.len() == i,
            forall|j: int| 0 <= j < i ==> (#[trigger] out@[j])@ == messages@[j].payload@,
        decreases messages.len() - i,
    {
        out.push(slice_to_vec(messages[i].payload.as_slice()));
        i = i + 1;
    }
    assert(payload_views(out@) =~= payloads_of(messages@));
    out
}

impl Peers {
    /// Whether one of the peers reports `id` as its identity.
    pub fn knows(&self, id: &String) -> (known: bool)
        ensures
            known == reports(self.peers@, id@),
    {
        let mut i: usize = 0;
        while i < self.peers.len()
            invariant
                i <= self.peers.len(),
                forall|j: int| 0 <= j < i ==> !(#[trigger] self.peers@[j]).has_id(id@),
            decreases self.peers.len() - i,
        {
            let found = match &self.peers[i].id {
                Some(text) => *text == *id,
                None => false,
            };
            if found {
                return true;
            }
            i = i + 1;
        }
        false
    }
}

} // verus!
