use netctl::{DhcpMode, Error, IpAddr, IpNetwork, Ipv4Addr, Ipv6Addr, MacAddress, Route};

#[test]
fn test_ipnetwork_parse_ipv4() {
    let net: IpNetwork = "192.168.1.10/24".parse().unwrap();
    assert_eq!(net.addr, IpAddr::V4(Ipv4Addr::new(192, 168, 1, 10)));
    assert_eq!(net.prefix_len, 24);
}

#[test]
fn test_ipnetwork_parse_ipv6() {
    let net: IpNetwork = "2001:db8::1/64".parse().unwrap();
    assert!(matches!(net.addr, IpAddr::V6(_)));
    assert_eq!(net.prefix_len, 64);
}

#[test]
fn test_ipnetwork_parse_invalid_no_prefix() {
    let result: Result<IpNetwork, Error> = "192.168.1.10".parse();
    assert!(result.is_err());
}

#[test]
fn test_ipnetwork_parse_invalid_address() {
    let result: Result<IpNetwork, Error> = "not.an.ip/24".parse();
    assert!(result.is_err());
}

#[test]
fn test_ipnetwork_display() {
    let net = IpNetwork {
        addr: IpAddr::V4(Ipv4Addr::new(10, 0, 0, 1)),
        prefix_len: 8,
    };
    assert_eq!(net.to_string(), "10.0.0.1/8");
}

#[test]
fn test_ipnetwork_roundtrip() {
    let text = "192.168.100.50/16";
    let net: IpNetwork = text.parse().unwrap();
    assert_eq!(net.to_string(), text);
}

#[test]
fn test_macaddress_parse_valid() {
    let mac: MacAddress = "aa:bb:cc:dd:ee:ff".parse().unwrap();
    assert_eq!(mac.octets(), [0xaa, 0xbb, 0xcc, 0xdd, 0xee, 0xff]);
}

#[test]
fn test_macaddress_parse_lowercase() {
    let mac: MacAddress = "00:11:22:33:44:55".parse().unwrap();
    assert_eq!(mac.octets(), [0x00, 0x11, 0x22, 0x33, 0x44, 0x55]);
}

#[test]
fn test_macaddress_parse_invalid_format() {
    let result: Result<MacAddress, Error> = "aa:bb:cc:dd:ee".parse(); // Only 5 octets
    assert!(result.is_err());
}

#[test]
fn test_macaddress_parse_invalid_hex() {
    let result: Result<MacAddress, Error> = "zz:bb:cc:dd:ee:ff".parse();
    assert!(result.is_err());
}

#[test]
fn test_macaddress_display() {
    let mac = MacAddress::new([0x00, 0x11, 0x22, 0x33, 0x44, 0x55]);
    assert_eq!(mac.to_string(), "00:11:22:33:44:55");
}

#[test]
fn test_macaddress_roundtrip() {
    let text = "aa:bb:cc:dd:ee:ff";
    let mac: MacAddress = text.parse().unwrap();
    assert_eq!(mac.to_string(), text);
}

#[test]
fn test_dhcp_mode_default() {
    assert_eq!(DhcpMode::default(), DhcpMode::No);
}

#[test]
fn test_route_creation() {
    let route = Route {
        destination: Some(
            IpNetwork::new(IpAddr::V4(Ipv4Addr::new(192, 168, 0, 0)), 24).unwrap(),
        ),
        gateway: Some(IpAddr::V4(Ipv4Addr::new(192, 168, 1, 1))),
    };
    assert!(route.destination.is_some());
    assert!(route.gateway.is_some());
}

#[test]
fn test_route_default_gateway() {
    let route = Route {
        destination: None, // Default route
        gateway: Some(IpAddr::V4(Ipv4Addr::new(10, 0, 0, 1))),
    };
    assert!(route.destination.is_none());
    assert!(route.gateway.is_some());
    assert!(route.is_default());
}

#[test]
fn ipv6_parses_to_its_groups() {
    let net: IpNetwork = "2001:db8::1/64".parse().unwrap();
    assert_eq!(net.addr, IpAddr::V6(Ipv6Addr::new(0x2001, 0xdb8, 0, 0, 0, 0, 0, 1)));
    assert_eq!(net.to_string(), "2001:db8::1/64");
}
