//! The announcement and its wire format: the identity, then the address (four
//! bytes or sixteen), then the port in big-endian order.

use byteorder::{BigEndian, ReadBytesExt, WriteBytesExt};
use vstd::prelude::*;
use vstd::slice::{slice_subrange, slice_to_vec};

verus! {

broadcast use vstd::array::group_array_axioms;

/// The public identity of a node: an opaque byte string of fixed length.
#[derive(Clone, Debug, PartialEq, Eq)]
pub struct NodeIdentity {
    pub bytes: Vec<u8>,
}

impl View for NodeIdentity {
    type V = Seq<u8>;

    open spec fn view(&self) -> Seq<u8> {
        self.bytes@
    }
}

/// An IP address, as its octets in network order.
#[derive(Clone, Copy, Debug, PartialEq, Eq)]
pub enum IpAddress {
    V4([u8; 4]),
    V6([u8; 16]),
}

/// Where a node accepts connections.
#[derive(Clone, Copy, Debug, PartialEq, Eq)]
pub struct Endpoint {
    pub address: IpAddress,
    pub port: u16,
}

/// What a node says of itself on the bus.
#[derive(Clone, Debug, PartialEq, Eq)]
pub struct Announcement {
    pub identity: NodeIdentity,
    pub endpoint: Endpoint,
}

/// An announcement with its identity as a sequence of bytes.
pub struct AnnouncementView {
    pub identity: Seq<u8>,
    pub endpoint: Endpoint,
}

impl View for Announcement {
    type V = AnnouncementView;

    open spec fn view(&self) -> AnnouncementView {
        AnnouncementView { identity: self.identity@, endpoint: self.endpoint }
    }
}

/// A payload whose length fits neither layout.
#[derive(Clone, Copy, Debug, PartialEq, Eq)]
pub struct MalformedAnnouncement {
    /// Length of the payload that was refused.
    pub payload_len: usize,
    /// Length of the identity that it was expected to start with.
    pub identity_len: usize,
}

/// Bytes of an IPv4 address and port on the wire.
pub const V4_TAIL_LEN: usize = 6;

/// Bytes of an IPv6 address and port on the wire.
pub const V6_TAIL_LEN: usize = 18;

/// The octets of an address.
pub open spec fn address_bytes(address: IpAddress) -> Seq<u8> {
    match address {
        IpAddress::V4(octets) => octets@,
        IpAddress::V6(octets) => octets@,
    }
}

/// A port in big-endian order.
pub open spec fn port_bytes(port: u16) -> Seq<u8> {
    seq![(port / 256) as u8, (port % 256) as u8]
}

/// The number that two bytes in big-endian order stand for.
pub open spec fn port_of(high: u8, low: u8) -> u16 {
    (high * 256 + low) as u16
}

/// The payload that announces `identity` at `endpoint`.
pub open spec fn wire_bytes(identity: Seq<u8>, endpoint: Endpoint) -> Seq<u8> {
    identity + address_bytes(endpoint.address) + port_bytes(endpoint.port)
}

/// Whether a payload of `len` bytes has one of the two layouts, for identities
/// of `identity_len` bytes.
pub open spec fn well_formed_len(len: nat, identity_len: nat) -> bool {
    len == identity_len + V4_TAIL_LEN || len == identity_len + V6_TAIL_LEN
}

/// Whether `payload` is the wire form of `announcement`, for identities of
/// `identity_len` bytes.
pub open spec fn announces(
    payload: Seq<u8>,
    identity_len: nat,
    announcement: AnnouncementView,
) -> bool {
    &&& announcement.identity.len() == identity_len
    &&& payload == wire_bytes(announcement.identity, announcement.endpoint)
}

/// What a payload announces, for identities of `identity_len` bytes: the
/// announcement whose wire form it is, if its length has one of the two
/// layouts.
pub open spec fn parsed(payload: Seq<u8>, identity_len: nat) -> Option<AnnouncementView> {
    if well_formed_len(payload.len(), identity_len) {
        Some(choose|a: AnnouncementView| announces(payload, identity_len, a))
    } else {
        None
    }
}

/// What a decoding gives, with the identity as a sequence.
pub open spec fn decoding_view(outcome: Result<Announcement, MalformedAnnouncement>) -> Option<
    AnnouncementView,
> {
    match outcome {
        Ok(announcement) => Some(announcement@),
        Err(_) => None,
    }
}

/// `WriteBytesExt::write_u16` with `BigEndian`, on a vector: the two bytes of
/// `n`, high byte first, are appended; writing to a vector does not fail.
#[verifier::external_body]
fn push_u16_be(buffer: &mut Vec<u8>, n: u16)
    ensures
        final(buffer)@ == old(buffer)@ + port_bytes(n),
{
    let _ = buffer.write_u16::<BigEndian>(n);
}

/// `ReadBytesExt::read_u16` with `BigEndian`, on a slice: the number that the
/// first two bytes stand for, high byte first; nothing where there are fewer.
#[verifier::external_body]
fn read_u16_be(bytes: &[u8]) -> (n: Option<u16>)
    ensures
        n == (if bytes@.len() >= 2 {
            Some(port_of(bytes@[0], bytes@[1]))
        } else {
            None
        }),
{
    let mut reader = bytes;
    reader.read_u16::<BigEndian>().ok()
}

/// The payload that announces `identity` at `endpoint`.
pub fn encode(identity: &NodeIdentity, endpoint: &Endpoint) -> (payload: Vec<u8>)
    ensures
        payload@ == wire_bytes(identity@, *endpoint),
{
    let mut payload: Vec<u8> = Vec::new();
    payload.extend_from_slice(identity.bytes.as_slice());
    match &endpoint.address {
        IpAddress::V4(octets) => {
            payload.extend_from_slice(octets.as_slice());
        },
        IpAddress::V6(octets) => {
            payload.extend_from_slice(octets.as_slice());
        },
    }
    push_u16_be(&mut payload, endpoint.port);
    payload
}

/// Reads an announcement from a payload, for identities of `identity_len`
/// bytes. The payload is refused exactly when its length fits neither layout.
pub fn decode(payload: &[u8], identity_len: usize) -> (outcome: Result<
    Announcement,
    MalformedAnnouncement,
>)
    ensures
        outcome is Ok <==> well_formed_len(payload@.len(), identity_len as nat),
        decoding_view(outcome) == parsed(payload@, identity_len as nat),
        match outcome {
            Ok(announcement) => announces(payload@, identity_len as nat, announcement@),
            Err(e) => e.payload_len == payload@.len() && e.identity_len == identity_len,
        },
{
    let len: usize = payload.len();
    let refused = MalformedAnnouncement { payload_len: len, identity_len };
    if len < identity_len {
        return Err(refused);
    }
    let tail_len: usize = len - identity_len;
    if tail_len != V4_TAIL_LEN && tail_len != V6_TAIL_LEN {
        return Err(refused);
    }
    let identity = NodeIdentity { bytes: slice_to_vec(slice_subrange(payload, 0, identity_len)) };
    let tail = slice_subrange(payload, identity_len, len);
    let address = if tail_len == V4_TAIL_LEN {
        IpAddress::V4([tail[0], tail[1], tail[2], tail[3]])
    } else {
        IpAddress::V6(
            [
                tail[0],
                tail[1],
                tail[2],
                tail[3],
                tail[4],
                tail[5],
                tail[6],
                tail[7],
                tail[8],
                tail[9],
                tail[10],
                tail[11],
                tail[12],
                tail[13],
                tail[14],
                tail[15],
            ],
        )
    };
    let port_field = slice_subrange(tail, tail_len - 2, tail_len);
    match read_u16_be(port_field) {
        Some(port) => {
            let endpoint = Endpoint { address, port };
            proof {
                let high = port_field@[0];
                let low = port_field@[1];
                assert(port / 256 == high && port % 256 == low);
                assert(port_bytes(port) =~= port_field@);
                assert(address_bytes(address) =~= tail@.subrange(0, tail_len - 2));
                assert(payload@ =~= wire_bytes(identity@, endpoint));
                lemma_parsed(
                    payload@,
                    identity_len as nat,
                    AnnouncementView { identity: identity@, endpoint },
                );
            }
            Ok(Announcement { identity, endpoint })
        },
        None => Err(refused),
    }
}

/// A payload announces one thing only: two announcements with identities of
/// one length and the same wire form are the same.
pub proof fn lemma_wire_form_unique(a: AnnouncementView, b: AnnouncementView)
    requires
        a.identity.len() == b.identity.len(),
        wire_bytes(a.identity, a.endpoint) == wire_bytes(b.identity, b.endpoint),
    ensures
        a == b,
{
    let n = a.identity.len() as int;
    let wa = wire_bytes(a.identity, a.endpoint);
    let wb = wire_bytes(b.identity, b.endpoint);
    assert(a.identity =~= wa.subrange(0, n));
    assert(b.identity =~= wb.subrange(0, n));
    let ka = address_bytes(a.endpoint.address).len() as int;
    let kb = address_bytes(b.endpoint.address).len() as int;
    assert(wa.len() == n + ka + 2);
    assert(wb.len() == n + kb + 2);
    assert(address_bytes(a.endpoint.address) =~= wa.subrange(n, n + ka));
    assert(address_bytes(b.endpoint.address) =~= wb.subrange(n, n + kb));
    assert(port_bytes(a.endpoint.port) =~= wa.subrange(n + ka, n + ka + 2));
    assert(port_bytes(b.endpoint.port) =~= wb.subrange(n + kb, n + kb + 2));
    assert(port_bytes(a.endpoint.port)[0] == port_bytes(b.endpoint.port)[0]);
    assert(port_bytes(a.endpoint.port)[1] == port_bytes(b.endpoint.port)[1]);
    assert(a.endpoint.port == b.endpoint.port);
    match (a.endpoint.address, b.endpoint.address) {
        (IpAddress::V4(x), IpAddress::V4(y)) => {
            assert(x@ == y@);
            assert(x =~= y);
        },
        (IpAddress::V6(x), IpAddress::V6(y)) => {
            assert(x@ == y@);
            assert(x =~= y);
        },
        _ => {
            assert(ka != kb);
        },
    }
}

/// A payload that is the wire form of an announcement is read as that
/// announcement.
pub proof fn lemma_parsed(payload: Seq<u8>, identity_len: nat, announcement: AnnouncementView)
    requires
        announces(payload, identity_len, announcement),
    ensures
        parsed(payload, identity_len) == Some(announcement),
{
    let chosen = choose|a: AnnouncementView| announces(payload, identity_len, a);
    lemma_wire_form_unique(chosen, announcement);
}

/// Decoding undoes encoding: the payload of an announcement has one of the two
/// layouts, and is read as that announcement.
pub proof fn lemma_decode_encode(identity: Seq<u8>, endpoint: Endpoint)
    ensures
        well_formed_len(wire_bytes(identity, endpoint).len(), identity.len()),
        parsed(wire_bytes(identity, endpoint), identity.len()) == Some(
            AnnouncementView { identity, endpoint },
        ),
{
    lemma_parsed(
        wire_bytes(identity, endpoint),
        identity.len(),
        AnnouncementView { identity, endpoint },
    );
}

/// A payload whose length fits neither layout is the wire form of nothing,
/// and is read as nothing.
pub proof fn lemma_refused_announces_nothing(
    payload: Seq<u8>,
    identity_len: nat,
    announcement: AnnouncementView,
)
    requires
        payload.len() != identity_len + V4_TAIL_LEN,
        payload.len() != identity_len + V6_TAIL_LEN,
    ensures
        !announces(payload, identity_len, announcement),
        parsed(payload, identity_len) is None,
{
}

} // verus!
