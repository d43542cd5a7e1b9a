use netctl::Error;
use std::io;

#[test]
fn test_error_interface_not_found() {
    let err = Error::InterfaceNotFound {
        name: "eth0".to_string(),
    };
    assert!(err.to_string().contains("eth0"));
}

#[test]
fn test_error_invalid_cidr() {
    let err = Error::InvalidCidr {
        input: "192.168.1.1".to_string(),
    };
    assert!(err.to_string().contains("192.168.1.1"));
}

#[test]
fn test_error_invalid_mac() {
    let err = Error::InvalidMacAddress {
        input: "zz:bb:cc".to_string(),
    };
    assert!(err.to_string().contains("zz:bb:cc"));
}

#[test]
fn test_error_netlink() {
    let err = Error::netlink("connection failed");
    assert!(err.to_string().contains("connection failed"));
}

#[test]
fn test_error_dbus() {
    let err = Error::dbus("method call failed");
    assert!(err.to_string().contains("method call failed"));
}

#[test]
fn test_error_io_from() {
    let io_err = io::Error::new(io::ErrorKind::NotFound, "file not found");
    let err = Error::from(io_err);
    assert!(matches!(err, Error::Io(_)));
}

#[test]
fn error_messages_are_exact() {
    assert_eq!(
        Error::InterfaceNotFound { name: "eth0".to_string() }.to_string(),
        "interface 'eth0' not found"
    );
    assert_eq!(
        Error::InvalidCidr { input: "10.0.0.1".to_string() }.to_string(),
        "invalid CIDR: 10.0.0.1"
    );
    assert_eq!(
        Error::InvalidMacAddress { input: "zz".to_string() }.to_string(),
        "invalid MAC: zz"
    );
    assert_eq!(Error::netlink("no buffer").to_string(), "netlink error: no buffer");
    assert_eq!(Error::dbus("timed out").to_string(), "D-Bus error: timed out");
    assert_eq!(Error::Generic("plain".to_string()).to_string(), "plain");
}

#[test]
fn io_error_message_has_its_lead_and_cause() {
    let err = Error::from(io::Error::new(io::ErrorKind::NotFound, "file not found"));
    assert_eq!(err.to_string(), "I/O error: file not found");
}
