use parity_orchestrator::wire::{
    decode, encode, Announcement, Endpoint, IpAddress, MalformedAnnouncement, NodeIdentity,
};

fn identity(byte: u8, len: usize) -> NodeIdentity {
    NodeIdentity { bytes: vec![byte; len] }
}

#[test]
fn encode_v4_lays_out_identity_address_port() {
    let endpoint = Endpoint { address: IpAddress::V4([10, 0, 0, 5]), port: 30303 };
    let payload = encode(&identity(0xAA, 32), &endpoint);
    assert_eq!(payload.len(), 38);
    assert_eq!(&payload[..32], &[0xAAu8; 32][..]);
    assert_eq!(&payload[32..], &[10u8, 0, 0, 5, 0x76, 0x5F][..]);
}

#[test]
fn encode_v6_lays_out_identity_address_port() {
    let octets: [u8; 16] = [0x20, 0x01, 0x0d, 0xb8, 0, 0, 0, 0, 0, 0, 0, 0, 0, 0, 0, 1];
    let endpoint = Endpoint { address: IpAddress::V6(octets), port: 0x0102 };
    let payload = encode(&identity(7, 64), &endpoint);
    assert_eq!(payload.len(), 64 + 16 + 2);
    assert_eq!(&payload[..64], &[7u8; 64][..]);
    assert_eq!(&payload[64..80], &octets[..]);
    assert_eq!(&payload[80..], &[1u8, 2][..]);
}

#[test]
fn port_is_big_endian() {
    let endpoint = Endpoint { address: IpAddress::V4([1, 2, 3, 4]), port: 1 };
    let payload = encode(&identity(0, 4), &endpoint);
    assert_eq!(payload, vec![0, 0, 0, 0, 1, 2, 3, 4, 0, 1]);
    let endpoint = Endpoint { address: IpAddress::V4([1, 2, 3, 4]), port: 0xFF00 };
    let payload = encode(&identity(0, 4), &endpoint);
    assert_eq!(payload, vec![0, 0, 0, 0, 1, 2, 3, 4, 0xFF, 0]);
}

#[test]
fn round_trip_v4() {
    let id = identity(0x5C, 64);
    let endpoint = Endpoint { address: IpAddress::V4([192, 168, 1, 77]), port: 65535 };
    let decoded = decode(&encode(&id, &endpoint), 64);
    assert_eq!(decoded, Ok(Announcement { identity: id, endpoint }));
}

#[test]
fn round_trip_v6() {
    let id = identity(0x11, 64);
    let octets: [u8; 16] = [0xfe, 0x80, 0, 0, 0, 0, 0, 0, 1, 2, 3, 4, 5, 6, 7, 8];
    let endpoint = Endpoint { address: IpAddress::V6(octets), port: 30303 };
    let decoded = decode(&encode(&id, &endpoint), 64);
    assert_eq!(decoded, Ok(Announcement { identity: id, endpoint }));
}

#[test]
fn round_trip_many_lengths_and_ports() {
    for len in [0usize, 1, 20, 32, 64, 65] {
        for port in [0u16, 1, 255, 256, 30303, 65535] {
            let id = NodeIdentity { bytes: (0..len).map(|i| (i * 7 + 3) as u8).collect() };
            let v4 = Endpoint { address: IpAddress::V4([port as u8, 2, 3, 4]), port };
            assert_eq!(
                decode(&encode(&id, &v4), len),
                Ok(Announcement { identity: id.clone(), endpoint: v4 })
            );
            let v6 = Endpoint { address: IpAddress::V6([port as u8; 16]), port };
            assert_eq!(
                decode(&encode(&id, &v6), len),
                Ok(Announcement { identity: id.clone(), endpoint: v6 })
            );
        }
    }
}

#[test]
fn v6_port_follows_the_address() {
    let mut payload = vec![9u8; 64];
    payload.extend_from_slice(&[1, 2, 3, 4, 5, 6, 7, 8, 9, 10, 11, 12, 13, 14, 15, 16]);
    payload.extend_from_slice(&[0x12, 0x34]);
    let decoded = decode(&payload, 64).unwrap();
    assert_eq!(decoded.endpoint.port, 0x1234);
    assert_eq!(
        decoded.endpoint.address,
        IpAddress::V6([1, 2, 3, 4, 5, 6, 7, 8, 9, 10, 11, 12, 13, 14, 15, 16])
    );
}

#[test]
fn decode_rejects_other_lengths() {
    for len in 0usize..=100 {
        let payload = vec![1u8; len];
        let outcome = decode(&payload, 64);
        if len == 64 + 6 || len == 64 + 18 {
            assert!(outcome.is_ok(), "length {}", len);
        } else {
            assert_eq!(
                outcome,
                Err(MalformedAnnouncement { payload_len: len, identity_len: 64 }),
                "length {}",
                len
            );
        }
    }
}

#[test]
fn decode_rejects_payload_shorter_than_identity() {
    assert_eq!(decode(&[], 64), Err(MalformedAnnouncement { payload_len: 0, identity_len: 64 }));
    assert_eq!(
        decode(&[1, 2, 3], 64),
        Err(MalformedAnnouncement { payload_len: 3, identity_len: 64 })
    );
}

#[test]
fn decode_rejects_sixteen_bytes_after_identity() {
    let payload = vec![0u8; 64 + 16];
    assert_eq!(
        decode(&payload, 64),
        Err(MalformedAnnouncement { payload_len: 80, identity_len: 64 })
    );
}

#[test]
fn decode_with_huge_identity_length_is_rejected() {
    assert_eq!(
        decode(&[0u8; 6], usize::MAX),
        Err(MalformedAnnouncement { payload_len: 6, identity_len: usize::MAX })
    );
}

#[test]
fn decode_empty_identity() {
    let decoded = decode(&[127, 0, 0, 1, 0, 80], 0).unwrap();
    assert_eq!(decoded.identity.bytes, Vec::<u8>::new());
    assert_eq!(decoded.endpoint, Endpoint { address: IpAddress::V4([127, 0, 0, 1]), port: 80 });
}
