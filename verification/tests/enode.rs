use parity_orchestrator::as_hex::HexError;
use parity_orchestrator::enode::{
    connection_string, identity_from_username, identity_text, node_identity, IdentityError,
};
use parity_orchestrator::wire::{Endpoint, IpAddress, NodeIdentity};

#[test]
fn node_identity_is_the_user_part_read_as_hex() {
    let enode = "enode://00ff10ab@127.0.0.1:30303";
    assert_eq!(node_identity(enode), Ok(NodeIdentity { bytes: vec![0x00, 0xff, 0x10, 0xab] }));
}

#[test]
fn node_identity_of_a_full_node_address() {
    let id = "6f8a80d14311c39f35f516fa664deaaaa13e85b2f7493f37f6144d86991ec012\
              937307647bd3b9a82abe2974e1407241d54947bbb39763a4cac9f77166ad92a0";
    let enode = format!("enode://{}@10.3.58.6:30303?discport=30301", id);
    let identity = node_identity(&enode).unwrap();
    assert_eq!(identity.bytes.len(), 64);
    assert_eq!(identity.bytes[0], 0x6f);
    assert_eq!(identity.bytes[63], 0xa0);
    assert_eq!(identity_text(&identity), id);
}

#[test]
fn node_identity_needs_a_user_part() {
    assert_eq!(node_identity("enode://127.0.0.1:30303"), Err(IdentityError::MissingNodeId));
    assert_eq!(node_identity(""), Err(IdentityError::MissingNodeId));
}

#[test]
fn node_identity_needs_hex() {
    assert_eq!(
        node_identity("enode://xyz1@127.0.0.1:30303"),
        Err(IdentityError::InvalidNodeId(HexError::InvalidHexCharacter { c: 'x', index: 0 }))
    );
    assert_eq!(
        node_identity("enode://abc@127.0.0.1:30303"),
        Err(IdentityError::InvalidNodeId(HexError::OddLength))
    );
}

#[test]
fn identity_from_username_cases() {
    assert_eq!(identity_from_username(None), Err(IdentityError::MissingNodeId));
    assert_eq!(
        identity_from_username(Some("0A0b".to_string())),
        Ok(NodeIdentity { bytes: vec![10, 11] })
    );
    assert_eq!(
        identity_from_username(Some("0".to_string())),
        Err(IdentityError::InvalidNodeId(HexError::OddLength))
    );
}

#[test]
fn connection_string_v4() {
    let identity = NodeIdentity { bytes: vec![0xAA; 32] };
    let endpoint = Endpoint { address: IpAddress::V4([10, 0, 0, 5]), port: 30303 };
    let expected = format!("enode://{}@10.0.0.5:30303", "aa".repeat(32));
    assert_eq!(connection_string(&identity, &endpoint), expected);
}

#[test]
fn connection_string_v6() {
    let identity = NodeIdentity { bytes: vec![0x01, 0x23] };
    let endpoint = Endpoint {
        address: IpAddress::V6([0x20, 0x01, 0x0d, 0xb8, 0, 0, 0, 0, 0, 0, 0, 0, 0, 0, 0, 1]),
        port: 1,
    };
    assert_eq!(connection_string(&identity, &endpoint), "enode://0123@2001:db8::1:1");
}

#[test]
fn connection_string_ports() {
    let identity = NodeIdentity { bytes: vec![] };
    for (port, text) in [(0u16, "0"), (9, "9"), (10, "10"), (65535, "65535"), (30303, "30303")] {
        let endpoint = Endpoint { address: IpAddress::V4([1, 2, 3, 4]), port };
        assert_eq!(connection_string(&identity, &endpoint), format!("enode://@1.2.3.4:{}", text));
    }
}

#[test]
fn connection_string_names_the_identity_the_node_reports() {
    let id = "00112233445566778899aabbccddeeff";
    let identity = node_identity(&format!("enode://{}@1.1.1.1:1", id)).unwrap();
    let endpoint = Endpoint { address: IpAddress::V4([1, 1, 1, 1]), port: 1 };
    assert_eq!(connection_string(&identity, &endpoint), format!("enode://{}@1.1.1.1:1", id));
}
