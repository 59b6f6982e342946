use parity_orchestrator::text::address_string;
use parity_orchestrator::wire::IpAddress;

fn v6(groups: [u16; 8]) -> IpAddress {
    let mut octets = [0u8; 16];
    for (i, g) in groups.iter().enumerate() {
        octets[2 * i] = (g >> 8) as u8;
        octets[2 * i + 1] = (g & 0xff) as u8;
    }
    IpAddress::V6(octets)
}

#[test]
fn ipv4_is_dotted_decimal() {
    assert_eq!(address_string(&IpAddress::V4([10, 0, 0, 5])), "10.0.0.5");
    assert_eq!(address_string(&IpAddress::V4([0, 0, 0, 0])), "0.0.0.0");
    assert_eq!(address_string(&IpAddress::V4([255, 255, 255, 255])), "255.255.255.255");
    assert_eq!(address_string(&IpAddress::V4([192, 168, 100, 9])), "192.168.100.9");
}

#[test]
fn ipv6_groups_are_short_hex() {
    assert_eq!(
        address_string(&v6([0x2001, 0xdb8, 0x85a3, 0x1, 0x20, 0x8a2e, 0x370, 0x7334])),
        "2001:db8:85a3:1:20:8a2e:370:7334"
    );
    assert_eq!(
        address_string(&v6([0xffff, 0xffff, 0xffff, 0xffff, 0xffff, 0xffff, 0xffff, 0xffff])),
        "ffff:ffff:ffff:ffff:ffff:ffff:ffff:ffff"
    );
}

#[test]
fn ipv6_longest_zero_run_is_shortened() {
    assert_eq!(address_string(&v6([0x2001, 0xdb8, 0, 0, 0, 0, 0, 1])), "2001:db8::1");
    assert_eq!(address_string(&v6([1, 0, 0, 2, 0, 0, 0, 3])), "1:0:0:2::3");
    assert_eq!(address_string(&v6([0xfe80, 0, 0, 0, 1, 0, 0, 1])), "fe80::1:0:0:1");
}

#[test]
fn ipv6_first_of_equal_runs_is_shortened() {
    assert_eq!(address_string(&v6([1, 0, 0, 2, 3, 0, 0, 4])), "1::2:3:0:0:4");
}

#[test]
fn ipv6_single_zero_group_is_kept() {
    assert_eq!(address_string(&v6([1, 0, 2, 3, 4, 5, 6, 7])), "1:0:2:3:4:5:6:7");
}

#[test]
fn ipv6_zero_run_at_either_end() {
    assert_eq!(address_string(&v6([0, 0, 0, 0, 0, 0, 0, 0])), "::");
    assert_eq!(address_string(&v6([0, 0, 0, 0, 0, 0, 0, 1])), "::1");
    assert_eq!(address_string(&v6([1, 2, 3, 4, 5, 6, 0, 0])), "1:2:3:4:5:6::");
    assert_eq!(address_string(&v6([0, 0, 3, 4, 5, 6, 7, 8])), "::3:4:5:6:7:8");
}

#[test]
fn ipv6_mapped_ipv4_is_dotted() {
    assert_eq!(
        address_string(&v6([0, 0, 0, 0, 0, 0xffff, 0xc0a8, 0x0101])),
        "::ffff:192.168.1.1"
    );
    assert_eq!(address_string(&v6([0, 0, 0, 0, 0, 0, 0xc0a8, 0x0101])), "::c0a8:101");
}

#[test]
fn ipv6_run_inside_a_longer_address() {
    assert_eq!(address_string(&v6([0, 1, 0, 0, 0, 0, 0, 0])), "0:1::");
    assert_eq!(address_string(&v6([0, 0, 1, 0, 0, 0, 2, 0])), "0:0:1::2:0");
    assert_eq!(address_string(&v6([0xa, 0, 0, 0xb, 0, 0, 0xc, 0])), "a::b:0:0:c:0");
    assert_eq!(
        address_string(&v6([0x10, 0x100, 0x1000, 0xabcd, 0, 1, 0, 1])),
        "10:100:1000:abcd:0:1:0:1"
    );
}
