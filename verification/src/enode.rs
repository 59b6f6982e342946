//! Node addresses as the control API writes them: `enode://`, the identity in
//! hexadecimal, `@`, the host, `:` and the port.

use crate::as_hex::{decode, encode, hex_decoded, hex_text, lemma_hex_round_trip, HexError};
use crate::text::{address_text, decimal_text, push_decimal, push_ipv6, push_ipv4};
use crate::wire::{Endpoint, IpAddress, NodeIdentity};
use urlparse::urlparse;
use vstd::prelude::*;
use vstd::string::*;
use vstd::utf8::encode_utf8;

verus! {

broadcast use vstd::array::group_array_axioms;

/// Why a node address gives no identity.
#[derive(Clone, Copy, Debug, PartialEq, Eq)]
pub enum IdentityError {
    /// The address has no user part.
    MissingNodeId,
    /// The user part is not the hexadecimal form of a byte string.
    InvalidNodeId(HexError),
}

/// The user part that `urlparse` finds in a URL, if it finds one.
pub uninterp spec fn url_username(url: Seq<char>) -> Option<Seq<char>>;

/// A text that may be absent, as a sequence of characters.
pub open spec fn text_view(text: Option<String>) -> Option<Seq<char>> {
    match text {
        Some(t) => Some(t@),
        None => None,
    }
}

/// The outcome of reading an identity, with the identity as a sequence.
pub open spec fn identity_view(outcome: Result<NodeIdentity, IdentityError>) -> Result<
    Seq<u8>,
    IdentityError,
> {
    match outcome {
        Ok(identity) => Ok(identity@),
        Err(e) => Err(e),
    }
}

/// What the user part of a node address gives: without one there is no
/// identity; otherwise the identity is what its UTF-8 bytes decode to as
/// hexadecimal text.
pub open spec fn identity_of(username: Option<Seq<char>>) -> Result<Seq<u8>, IdentityError> {
    match username {
        None => Err(IdentityError::MissingNodeId),
        Some(name) => match hex_decoded(encode_utf8(name)) {
            Ok(bytes) => Ok(bytes),
            Err(e) => Err(IdentityError::InvalidNodeId(e)),
        },
    }
}

/// The address under which the control API is asked to connect to a node.
pub open spec fn connection_text(identity: Seq<u8>, endpoint: Endpoint) -> Seq<char> {
    seq!['e', 'n', 'o', 'd', 'e', ':', '/', '/'] + hex_text(identity) + seq!['@'] + address_text(
        endpoint.address,
    ) + seq![':'] + decimal_text(endpoint.port as nat)
}

/// `urlparse::urlparse`, of which the user part is kept: it depends on the URL
/// alone, and the parser takes every text.
#[verifier::external_body]
fn parse_username(url: &str) -> (username: Option<String>)
    ensures
        text_view(username) == url_username(url@),
{
    urlparse(url).username
}

/// The identity that the user part of a node address stands for.
pub fn identity_from_username(username: Option<String>) -> (outcome: Result<
    NodeIdentity,
    IdentityError,
>)
    ensures
        identity_view(outcome) == identity_of(text_view(username)),
{
    match username {
        None => Err(IdentityError::MissingNodeId),
        Some(name) => match decode(name.as_str().as_bytes()) {
            Ok(bytes) => Ok(NodeIdentity { bytes }),
            Err(e) => Err(IdentityError::InvalidNodeId(e)),
        },
    }
}

/// The identity of the node with the given address: its user part, read as
/// hexadecimal text.
pub fn node_identity(enode: &str) -> (outcome: Result<NodeIdentity, IdentityError>)
    ensures
        identity_view(outcome) == identity_of(url_username(enode@)),
{
    identity_from_username(parse_username(enode))
}

/// The identity in hexadecimal text, as the control API reports its peers.
pub fn identity_text(identity: &NodeIdentity) -> (text: String)
    ensures
        text@ == hex_text(identity@),
{
    encode(identity.bytes.as_slice())
}

/// The address under which the control API is asked to connect to the node
/// with this identity at this endpoint.
pub fn connection_string(identity: &NodeIdentity, endpoint: &Endpoint) -> (text: String)
    ensures
        text@ == connection_text(identity@, *endpoint),
{
    proof {
        reveal_strlit("enode://");
        reveal_strlit("@");
        reveal_strlit(":");
        assert("enode://"@ =~= seq!['e', 'n', 'o', 'd', 'e', ':', '/', '/']);
        assert("@"@ =~= seq!['@']);
        assert(":"@ =~= seq![':']);
    }
    let mut text = String::from_str("enode://");
    let id = identity_text(identity);
    text.append(id.as_str());
    text.append("@");
    match &endpoint.address {
        IpAddress::V4(octets) => {
            assert(octets@ =~= seq![octets@[0], octets@[1], octets@[2], octets@[3]]);
            push_ipv4(&mut text, octets[0], octets[1], octets[2], octets[3]);
        },
        IpAddress::V6(octets) => {
            push_ipv6(&mut text, octets);
        },
    }
    text.append(":");
    push_decimal(&mut text, endpoint.port);
    assert(text@ =~= connection_text(identity@, *endpoint));
    text
}

/// The identity that stands in a node address is read back from it: the text
/// of an identity, taken as the user part, gives that identity.
pub proof fn lemma_identity_text_round_trip(identity: Seq<u8>)
    ensures
        identity_of(Some(hex_text(identity))) == Ok::<Seq<u8>, IdentityError>(identity),
{
    lemma_hex_round_trip(identity);
}

} // verus!
