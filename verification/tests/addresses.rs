use netctl::ip::{IpAddr, Ipv4Addr, Ipv6Addr};
use netctl::mac::MacAddress;
use netctl::network::IpNetwork;
use netctl::Error;

fn v6(text: &str) -> Ipv6Addr {
    Ipv6Addr::parse(text).unwrap()
}

#[test]
fn ipv4_reads_four_octets() {
    assert_eq!(Ipv4Addr::parse("192.168.1.10"), Some(Ipv4Addr::new(192, 168, 1, 10)));
    assert_eq!(Ipv4Addr::parse("0.0.0.0"), Some(Ipv4Addr::new(0, 0, 0, 0)));
    assert_eq!(Ipv4Addr::parse("255.255.255.255"), Some(Ipv4Addr::new(255, 255, 255, 255)));
}

#[test]
fn ipv4_refuses_what_is_no_address() {
    for text in ["", "1.2.3", "1.2.3.4.5", "1.2.3.", ".1.2.3", "1..2.3", "256.1.1.1", "01.2.3.4",
        "1.2.3.004", "1.2.3.4 ", "a.b.c.d", "1.2.3.+4", "1.2.3.1000"]
    {
        assert_eq!(Ipv4Addr::parse(text), None, "{}", text);
    }
}

#[test]
fn ipv4_writes_decimal_octets() {
    assert_eq!(Ipv4Addr::new(10, 0, 0, 1).to_string(), "10.0.0.1");
    assert_eq!(Ipv4Addr::new(255, 100, 9, 0).to_string(), "255.100.9.0");
}

#[test]
fn ipv6_reads_full_and_shortened_forms() {
    assert_eq!(v6("2001:db8::1").segments(), [0x2001, 0xdb8, 0, 0, 0, 0, 0, 1]);
    assert_eq!(v6("::").segments(), [0; 8]);
    assert_eq!(v6("::1").segments(), [0, 0, 0, 0, 0, 0, 0, 1]);
    assert_eq!(v6("1::").segments(), [1, 0, 0, 0, 0, 0, 0, 0]);
    assert_eq!(v6("1:2:3:4:5:6:7:8").segments(), [1, 2, 3, 4, 5, 6, 7, 8]);
    assert_eq!(v6("1:2:3:4:5:6:7::").segments(), [1, 2, 3, 4, 5, 6, 7, 0]);
    assert_eq!(v6("::2:3:4:5:6:7:8").segments(), [0, 2, 3, 4, 5, 6, 7, 8]);
    assert_eq!(v6("FE80::ABCD").segments(), [0xfe80, 0, 0, 0, 0, 0, 0, 0xabcd]);
    assert_eq!(v6("0001:002:03:4::").segments(), [1, 2, 3, 4, 0, 0, 0, 0]);
}

#[test]
fn ipv6_reads_an_embedded_ipv4_address() {
    assert_eq!(v6("::ffff:192.168.1.1").segments(), [0, 0, 0, 0, 0, 0xffff, 0xc0a8, 0x0101]);
    assert_eq!(v6("::1.2.3.4").segments(), [0, 0, 0, 0, 0, 0, 0x0102, 0x0304]);
    assert_eq!(v6("1:2:3:4:5:6:1.2.3.4").segments(), [1, 2, 3, 4, 5, 6, 0x0102, 0x0304]);
    assert_eq!(v6("64:ff9b::10.0.0.1").segments(), [0x64, 0xff9b, 0, 0, 0, 0, 0x0a00, 0x0001]);
}

#[test]
fn ipv6_refuses_what_is_no_address() {
    for text in ["", ":", ":::", "1::2::3", "1:2:3:4:5:6:7", "1:2:3:4:5:6:7:8:9",
        "1:2:3:4:5:6:7:8::", "::1:2:3:4:5:6:7:8", "12345::", "g::", "1.2.3.4::", "1.2.3.4",
        "1:2:3:4:5:6:7:1.2.3.4", "1:2:3:4:5:6::1.2.3.4", "::1.2.3", "1::2:", ":1::2", "::1%eth0",
        "1:2:3:4:5:6:7:"]
    {
        assert_eq!(Ipv6Addr::parse(text), None, "{}", text);
    }
}

#[test]
fn ipv6_writes_the_shortest_form() {
    assert_eq!(Ipv6Addr::new(0x2001, 0xdb8, 0, 0, 0, 0, 0, 1).to_string(), "2001:db8::1");
    assert_eq!(Ipv6Addr::new(0, 0, 0, 0, 0, 0, 0, 0).to_string(), "::");
    assert_eq!(Ipv6Addr::new(0, 0, 0, 0, 0, 0, 0, 1).to_string(), "::1");
    assert_eq!(Ipv6Addr::new(1, 0, 0, 0, 0, 0, 0, 0).to_string(), "1::");
    assert_eq!(Ipv6Addr::new(1, 2, 3, 4, 5, 6, 7, 8).to_string(), "1:2:3:4:5:6:7:8");
    assert_eq!(Ipv6Addr::new(1, 0, 2, 3, 4, 5, 6, 7).to_string(), "1:0:2:3:4:5:6:7");
    assert_eq!(Ipv6Addr::new(1, 0, 0, 2, 0, 0, 0, 3).to_string(), "1:0:0:2::3");
    assert_eq!(Ipv6Addr::new(1, 0, 0, 2, 3, 0, 0, 4).to_string(), "1::2:3:0:0:4");
    assert_eq!(Ipv6Addr::new(0xfe80, 0, 0, 0, 0xabcd, 0xef, 0, 0x10).to_string(), "fe80::abcd:ef:0:10");
}

#[test]
fn ipv6_writes_mapped_addresses_with_dots() {
    assert_eq!(
        Ipv6Addr::new(0, 0, 0, 0, 0, 0xffff, 0xc0a8, 0x0101).to_string(),
        "::ffff:192.168.1.1"
    );
    assert_eq!(Ipv6Addr::new(0, 0, 0, 0, 0, 0, 0x0102, 0x0304).to_string(), "::102:304");
}

#[test]
fn ipv6_octets_are_in_wire_order() {
    let o = Ipv6Addr::new(0x2001, 0xdb8, 0, 0, 0, 0, 0, 1).octets();
    assert_eq!(o, [0x20, 0x01, 0x0d, 0xb8, 0, 0, 0, 0, 0, 0, 0, 0, 0, 0, 0, 1]);
}

#[test]
fn addresses_read_back_from_their_text() {
    let groups: [[u16; 8]; 6] = [
        [0, 0, 0, 0, 0, 0, 0, 0],
        [0, 0, 0, 0, 0, 0xffff, 1, 2],
        [1, 0, 0, 0, 2, 0, 0, 0],
        [0, 0, 1, 0, 0, 0, 0, 0],
        [0xffff, 0xffff, 0xffff, 0xffff, 0xffff, 0xffff, 0xffff, 0xffff],
        [0, 1, 0, 1, 0, 1, 0, 1],
    ];
    for g in groups {
        let addr = Ipv6Addr::new(g[0], g[1], g[2], g[3], g[4], g[5], g[6], g[7]);
        assert_eq!(Ipv6Addr::parse(&addr.to_string()), Some(addr), "{}", addr.to_string());
        assert_eq!(IpAddr::parse(&addr.to_string()), Some(IpAddr::V6(addr)));
    }
    let v4 = Ipv4Addr::new(172, 16, 254, 1);
    assert_eq!(IpAddr::parse(&v4.to_string()), Some(IpAddr::V4(v4)));
}

#[test]
fn networks_read_back_from_their_text() {
    for text in ["192.168.1.10/24", "0.0.0.0/0", "10.1.2.3/32", "2001:db8::1/64", "::/0",
        "::ffff:10.0.0.1/128", "fe80::1:0:0:2/10"]
    {
        let net: IpNetwork = text.parse().unwrap();
        assert_eq!(net.to_string(), text);
        assert!(net.is_well_formed());
    }
}

#[test]
fn network_text_that_is_not_canonical_reads_but_is_written_canonically() {
    let net: IpNetwork = "2001:DB8:0:0::1/+064".parse().unwrap();
    assert_eq!(net.to_string(), "2001:db8::1/64");
}

fn refused_cidr(text: &str) {
    match IpNetwork::parse(text) {
        Err(Error::InvalidCidr { input }) => assert_eq!(input, text),
        other => panic!("{} gave {:?}", text, other),
    }
}

#[test]
fn network_without_slash_is_refused() {
    refused_cidr("192.168.1.10");
    refused_cidr("2001:db8::1");
    refused_cidr("");
}

#[test]
fn network_with_bad_parts_is_refused() {
    refused_cidr("not.an.ip/24");
    refused_cidr("/24");
    refused_cidr("10.0.0.1/");
    refused_cidr("10.0.0.1/x");
    refused_cidr("10.0.0.1/24/");
    refused_cidr("10.0.0.1/256");
    refused_cidr("10.0.0.1/-1");
    refused_cidr("10.0.0.1/+");
}

#[test]
fn network_with_a_prefix_longer_than_the_address_is_refused() {
    refused_cidr("10.0.0.1/33");
    refused_cidr("::1/129");
    assert!(IpNetwork::parse("10.0.0.1/32").is_ok());
    assert!(IpNetwork::parse("::1/128").is_ok());
}

#[test]
fn new_network_checks_the_prefix() {
    let v4 = IpAddr::V4(Ipv4Addr::new(10, 0, 0, 1));
    assert!(IpNetwork::new(v4, 32).is_ok());
    match IpNetwork::new(v4, 33) {
        Err(Error::InvalidCidr { input }) => assert_eq!(input, "10.0.0.1/33"),
        other => panic!("{:?}", other),
    }
    let v6 = IpAddr::V6(Ipv6Addr::new(0, 0, 0, 0, 0, 0, 0, 1));
    assert!(IpNetwork::new(v6, 128).is_ok());
    assert!(IpNetwork::new(v6, 129).is_err());
}

#[test]
fn mac_reads_either_case_and_short_groups() {
    let mac: MacAddress = "AA:Bb:0c:d:0E:00ff".parse().unwrap();
    assert_eq!(mac.octets(), [0xaa, 0xbb, 0x0c, 0x0d, 0x0e, 0xff]);
    assert_eq!(mac.to_string(), "aa:bb:0c:0d:0e:ff");
}

fn refused_mac(text: &str) {
    match MacAddress::parse(text) {
        Err(Error::InvalidMacAddress { input }) => assert_eq!(input, text),
        other => panic!("{} gave {:?}", text, other),
    }
}

#[test]
fn mac_refuses_what_is_no_address() {
    refused_mac("");
    refused_mac("aa:bb:cc:dd:ee");
    refused_mac("aa:bb:cc:dd:ee:ff:00");
    refused_mac("zz:bb:cc:dd:ee:ff");
    refused_mac("aa:bb:cc:dd:ee:");
    refused_mac("aa:bb:cc:dd:ee:100");
    refused_mac("+a:bb:cc:dd:ee:ff");
    refused_mac("aa-bb-cc-dd-ee-ff");
    refused_mac("aa:bb:cc:dd:ee:f f");
}

#[test]
fn mac_round_trips_every_octet_value() {
    let mut b: u8 = 0;
    loop {
        let mac = MacAddress::new([b, b.wrapping_add(1), 0, 255, b, 16]);
        let text = mac.to_string();
        assert_eq!(text.len(), 17);
        assert_eq!(MacAddress::parse(&text).unwrap(), mac);
        if b == 255 {
            break;
        }
        b += 1;
    }
}
