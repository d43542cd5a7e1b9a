use netctl::client::{
    ack_from_reply, index_from_reply, link_from_reply, links_from_reply, AddressOps, LinkChange,
    LinkOps, NetlinkClient, NetlinkTransport,
};
use netctl::dbus::{
    ifindex, ip_to_dbus_format, text_outcome, text_with_index, unit_outcome, wrap_failure, Daemon,
    DbusCall, DbusFailure, DbusTransport,
};
use netctl::ip::{IpAddr, Ipv4Addr, Ipv6Addr};
use netctl::manager::{after_resolve, LinkAction, NetworkManager, Step};
use netctl::netlink::{
    collect_links, find_link, resolve_index, LinkAttribute, LinkRecord, IFF_UP,
};
use netctl::network::{IpNetwork, LinkState};
use netctl::services::{DbusClient, HostnamedOps, NetworkdOps, ResolvedOps};
use netctl::traits::NetworkDevice;
use netctl::Error;
use std::cell::RefCell;

fn record(index: u32, name: &str, flags: u32, mtu: u32) -> LinkRecord {
    LinkRecord {
        index,
        flags,
        attributes: vec![
            LinkAttribute::Other,
            LinkAttribute::IfName(name.to_string()),
            LinkAttribute::Mtu(mtu),
        ],
    }
}

fn three_links() -> Vec<LinkRecord> {
    let mut eth0 = record(2, "eth0", 0x1043, 1500);
    eth0.attributes.push(LinkAttribute::Address(vec![0x52, 0x54, 0, 0x12, 0x34, 0x56]));
    vec![record(1, "lo", 0x49, 65536), eth0, record(7, "wlan0", 0x1002, 1400)]
}

#[test]
fn a_record_becomes_a_snapshot() {
    let links = three_links();
    let info = links[1].to_link_info();
    assert_eq!(info.index, 2);
    assert_eq!(info.name, "eth0");
    assert_eq!(info.state, LinkState::Up);
    assert_eq!(info.mtu, 1500);
    assert_eq!(info.mac_address.unwrap().to_string(), "52:54:00:12:34:56");
    assert!(info.addresses.is_empty());
    assert_eq!(info.name(), "eth0");
    assert_eq!(NetworkDevice::index(&info), 2);
}

#[test]
fn a_record_without_attributes_has_defaults() {
    let info = LinkRecord { index: 9, flags: 0, attributes: vec![] }.to_link_info();
    assert_eq!(info.name, "");
    assert_eq!(info.mtu, 0);
    assert_eq!(info.mac_address, None);
    assert_eq!(info.state, LinkState::Down);
}

#[test]
fn an_address_of_another_length_is_no_mac() {
    let mut r = record(3, "ib0", IFF_UP, 2044);
    r.attributes.push(LinkAttribute::Address(vec![0; 20]));
    assert_eq!(r.to_link_info().mac_address, None);
    r.attributes.push(LinkAttribute::Address(vec![1, 2, 3, 4, 5, 6]));
    r.attributes.push(LinkAttribute::Address(vec![1, 2, 3, 4, 5]));
    assert_eq!(r.to_link_info().mac_address.unwrap().octets(), [1, 2, 3, 4, 5, 6]);
}

#[test]
fn the_last_attribute_of_a_kind_counts() {
    let mut r = record(3, "old", 0, 1000);
    r.attributes.push(LinkAttribute::IfName("new".to_string()));
    r.attributes.push(LinkAttribute::Mtu(9000));
    let info = r.to_link_info();
    assert_eq!(info.name, "new");
    assert_eq!(info.mtu, 9000);
}

#[test]
fn state_follows_the_up_bit_only() {
    assert_eq!(record(1, "a", 1, 0).to_link_info().state, LinkState::Up);
    assert_eq!(record(1, "a", 0xffff_ffff, 0).to_link_info().state, LinkState::Up);
    assert_eq!(record(1, "a", 0xffff_fffe, 0).to_link_info().state, LinkState::Down);
    assert_eq!(record(1, "a", 0x1002, 0).to_link_info().state, LinkState::Down);
}

#[test]
fn listing_keeps_number_and_order() {
    let links = collect_links(&three_links());
    let names: Vec<&str> = links.iter().map(|l| l.name.as_str()).collect();
    assert_eq!(names, vec!["lo", "eth0", "wlan0"]);
    let states: Vec<LinkState> = links.iter().map(|l| l.state).collect();
    assert_eq!(states, vec![LinkState::Up, LinkState::Up, LinkState::Down]);
    assert!(collect_links(&vec![]).is_empty());
}

#[test]
fn resolving_takes_the_first_record_of_the_reply() {
    let reply = vec![record(2, "eth0", 0x1043, 1500), record(40, "eth0", 0, 0)];
    assert_eq!(resolve_index(&reply, "eth0").unwrap(), 2);
    assert_eq!(find_link(&reply, "eth0").unwrap().mtu, 1500);
    let one = vec![record(7, "wlan0", 0x1002, 1400)];
    assert_eq!(resolve_index(&one, "wlan0").unwrap(), 7);
    assert_eq!(find_link(&one, "wlan0").unwrap().state, LinkState::Down);
}

#[test]
fn the_record_of_the_reply_is_taken_under_any_name() {
    let reply = vec![record(5, "enp3s0", IFF_UP, 9000), record(6, "eth0", 0, 1500)];
    assert_eq!(resolve_index(&reply, "eth0").unwrap(), 5);
    let info = find_link(&reply, "eth0").unwrap();
    assert_eq!(info.index, 5);
    assert_eq!(info.name, "enp3s0");
    assert_eq!(info.mtu, 9000);
    assert_eq!(resolve_index(&three_links(), "wlan0").unwrap(), 1);
    assert_eq!(find_link(&three_links(), "ETH0").unwrap().name, "lo");
}

fn not_found<T: std::fmt::Debug>(r: Result<T, Error>, name: &str) {
    match r {
        Err(Error::InterfaceNotFound { name: n }) => assert_eq!(n, name),
        other => panic!("{:?}", other),
    }
}

#[test]
fn resolving_from_an_empty_reply_fails() {
    not_found(resolve_index(&vec![], "eth0"), "eth0");
    not_found(find_link(&vec![], "eth0"), "eth0");
    not_found(resolve_index(&vec![], ""), "");
    not_found(find_link(&vec![], "ETH0"), "ETH0");
}

#[test]
fn replies_become_outcomes() {
    assert_eq!(index_from_reply(Ok(vec![record(7, "wlan0", 0x1002, 1400)]), "wlan0").unwrap(), 7);
    assert_eq!(index_from_reply(Ok(three_links()), "wlan0").unwrap(), 1);
    not_found(index_from_reply(Ok(vec![]), "wlan0"), "wlan0");
    not_found(link_from_reply(Ok(vec![]), "wlan0"), "wlan0");
    match index_from_reply(Err("No such device (os error 19)".to_string()), "wlan0") {
        Err(Error::Netlink(cause)) => assert_eq!(cause, "No such device (os error 19)"),
        other => panic!("{:?}", other),
    }
    assert_eq!(links_from_reply(Ok(three_links())).unwrap().len(), 3);
    assert!(matches!(links_from_reply(Err("x".to_string())), Err(Error::Netlink(_))));
    assert_eq!(link_from_reply(Ok(vec![record(2, "eth0", 0x1043, 1500)]), "eth0").unwrap().index, 2);
    assert_eq!(link_from_reply(Ok(three_links()), "eth0").unwrap().index, 1);
    assert!(ack_from_reply(Ok(())).is_ok());
    match ack_from_reply(Err("Operation not permitted".to_string())) {
        Err(Error::Netlink(cause)) => assert_eq!(cause, "Operation not permitted"),
        other => panic!("{:?}", other),
    }
}

#[test]
fn dns_entries_carry_family_and_octets() {
    let v4 = ip_to_dbus_format(&IpAddr::V4(Ipv4Addr::new(192, 168, 1, 1)));
    assert_eq!(v4, (2, vec![192, 168, 1, 1]));
    let v6 = ip_to_dbus_format(&IpAddr::V6(Ipv6Addr::new(0x2001, 0xdb8, 0, 0, 0, 0, 0, 1)));
    assert_eq!(v6.0, 10);
    assert_eq!(v6.1, vec![0x20, 0x01, 0x0d, 0xb8, 0, 0, 0, 0, 0, 0, 0, 0, 0, 0, 0, 1]);
}

#[test]
fn dns_call_keeps_the_order_of_the_servers() {
    let servers = vec![
        IpAddr::V4(Ipv4Addr::new(8, 8, 8, 8)),
        IpAddr::V6(Ipv6Addr::new(0, 0, 0, 0, 0, 0, 0, 1)),
        IpAddr::V4(Ipv4Addr::new(1, 1, 1, 1)),
    ];
    match DbusCall::set_link_dns(3, &servers) {
        DbusCall::SetLinkDns { ifindex, addresses } => {
            assert_eq!(ifindex, 3);
            assert_eq!(addresses.len(), 3);
            assert_eq!(addresses[0], (2, vec![8, 8, 8, 8]));
            assert_eq!(addresses[1].0, 10);
            assert_eq!(addresses[1].1.len(), 16);
            assert_eq!(addresses[2], (2, vec![1, 1, 1, 1]));
        }
        other => panic!("{:?}", other),
    }
}

#[test]
fn domains_are_never_for_routing_only() {
    let domains = vec!["b.example".to_string(), "a.example".to_string(), "~.".to_string()];
    match DbusCall::set_link_domains(5, domains) {
        DbusCall::SetLinkDomains { ifindex, domains } => {
            assert_eq!(ifindex, 5);
            assert_eq!(
                domains,
                vec![
                    ("b.example".to_string(), false),
                    ("a.example".to_string(), false),
                    ("~.".to_string(), false)
                ]
            );
        }
        other => panic!("{:?}", other),
    }
}

#[test]
fn the_index_keeps_its_bits() {
    assert_eq!(ifindex(0), 0);
    assert_eq!(ifindex(2147483647), 2147483647);
    assert_eq!(ifindex(2147483648), -2147483648);
    assert_eq!(ifindex(4294967295), -1);
}

#[test]
fn calls_name_their_daemon_and_member() {
    assert_eq!(DbusCall::Reload.daemon(), Daemon::Networkd);
    assert_eq!(DbusCall::GetLink { ifindex: 1 }.member(), "GetLink");
    assert_eq!(DbusCall::FlushCaches.daemon(), Daemon::Resolved);
    assert_eq!(DbusCall::SetLinkDns { ifindex: 1, addresses: vec![] }.member(), "SetLinkDNS");
    assert_eq!(DbusCall::MachineId.daemon(), Daemon::Hostnamed);
    assert_eq!(DbusCall::MachineId.member(), "MachineID");
}

fn dbus_message<T: std::fmt::Debug>(r: Result<T, Error>) -> String {
    match r {
        Err(Error::Dbus(text)) => text,
        other => panic!("{:?}", other),
    }
}

#[test]
fn failures_become_dbus_errors() {
    let e = wrap_failure(Daemon::Resolved, "Failed to set DNS servers", DbusFailure::Call("denied".to_string()));
    assert_eq!(e.to_string(), "D-Bus error: Failed to set DNS servers: denied");
    let e = wrap_failure(Daemon::Networkd, "ignored", DbusFailure::Proxy("no bus".to_string()));
    assert_eq!(e.to_string(), "D-Bus error: Failed to create networkd proxy: no bus");
    assert!(unit_outcome(Daemon::Hostnamed, "x", Ok(())).is_ok());
    assert_eq!(text_outcome(Daemon::Hostnamed, "x", Ok("host".to_string())).unwrap(), "host");
    assert_eq!(
        dbus_message(text_outcome(Daemon::Hostnamed, "Failed to get hostname", Err(DbusFailure::Proxy("p".to_string())))),
        "Failed to create hostnamed proxy: p"
    );
    assert_eq!(text_with_index("Failed to reconfigure link ", 4294967295, ""), "Failed to reconfigure link 4294967295");
}

#[derive(Debug, Clone, PartialEq)]
enum Sent {
    Query(Option<String>),
    Change(u32, LinkChange),
    Add(u32, IpNetwork),
    Call(DbusCall),
}

struct Kernel {
    links: Vec<LinkRecord>,
    refuse: Option<String>,
    down: bool,
    log: RefCell<Vec<Sent>>,
}

impl Kernel {
    fn new(links: Vec<LinkRecord>) -> Kernel {
        Kernel { links, refuse: None, down: false, log: RefCell::new(vec![]) }
    }
}

impl<'a> NetlinkTransport for &'a Kernel {
    fn query_links(&self, name: Option<&str>) -> Result<Vec<LinkRecord>, String> {
        self.log.borrow_mut().push(Sent::Query(name.map(|n| n.to_string())));
        if self.down {
            return Err("channel closed".to_string());
        }
        Ok(match name {
            None => self.links.clone(),
            Some(n) => self.links.iter().filter(|l| l.to_link_info().name == n).cloned().collect(),
        })
    }

    fn change_link(&self, index: u32, change: LinkChange) -> Result<(), String> {
        self.log.borrow_mut().push(Sent::Change(index, change));
        match &self.refuse {
            Some(cause) => Err(cause.clone()),
            None => Ok(()),
        }
    }

    fn add_address(&self, index: u32, network: IpNetwork) -> Result<(), String> {
        self.log.borrow_mut().push(Sent::Add(index, network));
        match &self.refuse {
            Some(cause) => Err(cause.clone()),
            None => Ok(()),
        }
    }
}

struct Bus {
    fail: Option<DbusFailure>,
    log: RefCell<Vec<Sent>>,
}

impl Bus {
    fn new() -> Bus {
        Bus { fail: None, log: RefCell::new(vec![]) }
    }
}

impl<'a> DbusTransport for &'a Bus {
    fn invoke(&self, call: &DbusCall) -> Result<(), DbusFailure> {
        self.log.borrow_mut().push(Sent::Call(call.clone()));
        match &self.fail {
            Some(f) => Err(f.clone()),
            None => Ok(()),
        }
    }

    fn fetch(&self, call: &DbusCall) -> Result<String, DbusFailure> {
        self.log.borrow_mut().push(Sent::Call(call.clone()));
        match (&self.fail, call) {
            (Some(f), _) => Err(f.clone()),
            (None, DbusCall::Hostname) => Ok("host1".to_string()),
            (None, DbusCall::MachineId) => Ok("0123456789abcdef0123456789abcdef".to_string()),
            (None, DbusCall::GetLink { ifindex }) => {
                Ok(format!("/org/freedesktop/network1/link/_3{}", ifindex))
            }
            (None, _) => Ok(String::new()),
        }
    }
}

#[test]
fn a_mutation_by_name_resolves_first_then_acts() {
    let kernel = Kernel::new(three_links());
    let bus = Bus::new();
    let manager = NetworkManager::new(&kernel, &bus);
    manager.set_link_up("wlan0").unwrap();
    manager.set_mtu("eth0", 9000).unwrap();
    manager.set_link_down("lo").unwrap();
    let net: IpNetwork = "10.0.0.2/24".parse().unwrap();
    manager.add_address("eth0", net).unwrap();
    assert_eq!(
        *kernel.log.borrow(),
        vec![
            Sent::Query(Some("wlan0".to_string())),
            Sent::Change(7, LinkChange::Up),
            Sent::Query(Some("eth0".to_string())),
            Sent::Change(2, LinkChange::Mtu(9000)),
            Sent::Query(Some("lo".to_string())),
            Sent::Change(1, LinkChange::Down),
            Sent::Query(Some("eth0".to_string())),
            Sent::Add(2, net),
        ]
    );
    assert!(bus.log.borrow().is_empty());
}

#[test]
fn a_name_that_is_not_resolved_stops_the_operation() {
    let kernel = Kernel::new(three_links());
    let bus = Bus::new();
    let manager = NetworkManager::new(&kernel, &bus);
    not_found(manager.set_link_up("eth9"), "eth9");
    not_found(manager.set_mtu("eth9", 1500), "eth9");
    not_found(manager.add_address("eth9", "10.0.0.2/24".parse().unwrap()), "eth9");
    not_found(manager.reconfigure_link("eth9"), "eth9");
    not_found(manager.set_dns_servers("eth9", vec![]), "eth9");
    not_found(manager.set_dns_domains("eth9", vec![]), "eth9");
    not_found(manager.revert_dns("eth9"), "eth9");
    not_found(manager.get_link_info("eth9"), "eth9");
    let log = kernel.log.borrow();
    assert_eq!(log.len(), 8);
    assert!(log.iter().all(|s| *s == Sent::Query(Some("eth9".to_string()))));
    assert!(bus.log.borrow().is_empty());
}

#[test]
fn an_empty_reply_means_not_found() {
    let kernel = Kernel::new(vec![]);
    let bus = Bus::new();
    let manager = NetworkManager::new(&kernel, &bus);
    not_found(manager.set_link_up("eth0"), "eth0");
    assert!(manager.list_links().unwrap().is_empty());
}

#[test]
fn a_refused_mutation_is_a_netlink_error() {
    let mut kernel = Kernel::new(three_links());
    kernel.refuse = Some("Operation not permitted (os error 1)".to_string());
    let bus = Bus::new();
    let manager = NetworkManager::new(&kernel, &bus);
    match manager.set_link_up("eth0") {
        Err(Error::Netlink(cause)) => assert_eq!(cause, "Operation not permitted (os error 1)"),
        other => panic!("{:?}", other),
    }
    assert_eq!(kernel.log.borrow().len(), 2);
}

#[test]
fn a_failed_channel_is_a_netlink_error() {
    let mut kernel = Kernel::new(three_links());
    kernel.down = true;
    let bus = Bus::new();
    let manager = NetworkManager::new(&kernel, &bus);
    assert!(matches!(manager.list_links(), Err(Error::Netlink(_))));
    assert!(matches!(manager.set_link_up("eth0"), Err(Error::Netlink(_))));
    assert_eq!(*kernel.log.borrow(), vec![Sent::Query(None), Sent::Query(Some("eth0".to_string()))]);
}

#[test]
fn the_manager_lists_and_finds_links() {
    let kernel = Kernel::new(three_links());
    let bus = Bus::new();
    let manager = NetworkManager::new(&kernel, &bus);
    let links = manager.list_links().unwrap();
    assert_eq!(links.len(), 3);
    assert_eq!(links[2].name, "wlan0");
    let eth0 = manager.get_link_info("eth0").unwrap();
    assert_eq!(eth0.index, 2);
    assert!(eth0.addresses.is_empty());
}

#[test]
fn daemon_calls_by_name_carry_the_resolved_index() {
    let kernel = Kernel::new(three_links());
    let bus = Bus::new();
    let manager = NetworkManager::new(&kernel, &bus);
    manager.reconfigure_link("wlan0").unwrap();
    manager.set_dns_servers("eth0", vec![IpAddr::V4(Ipv4Addr::new(9, 9, 9, 9))]).unwrap();
    manager.set_dns_domains("eth0", vec!["lan".to_string()]).unwrap();
    manager.revert_dns("lo").unwrap();
    manager.reload_networkd().unwrap();
    manager.flush_dns_caches().unwrap();
    manager.set_hostname("box").unwrap();
    assert_eq!(manager.get_hostname().unwrap(), "host1");
    assert_eq!(manager.get_machine_id().unwrap(), "0123456789abcdef0123456789abcdef");
    assert_eq!(
        *bus.log.borrow(),
        vec![
            Sent::Call(DbusCall::ReconfigureLink { ifindex: 7 }),
            Sent::Call(DbusCall::SetLinkDns { ifindex: 2, addresses: vec![(2, vec![9, 9, 9, 9])] }),
            Sent::Call(DbusCall::SetLinkDomains { ifindex: 2, domains: vec![("lan".to_string(), false)] }),
            Sent::Call(DbusCall::RevertLink { ifindex: 1 }),
            Sent::Call(DbusCall::Reload),
            Sent::Call(DbusCall::FlushCaches),
            Sent::Call(DbusCall::SetStaticHostname { name: "box".to_string(), interactive: false }),
            Sent::Call(DbusCall::Hostname),
            Sent::Call(DbusCall::MachineId),
        ]
    );
    assert_eq!(kernel.log.borrow().len(), 4);
}

#[test]
fn daemon_failures_keep_their_text() {
    let kernel = Kernel::new(three_links());
    let mut bus = Bus::new();
    bus.fail = Some(DbusFailure::Call("org.freedesktop.DBus.Error.AccessDenied: no".to_string()));
    let client = DbusClient::new(&bus);
    assert_eq!(
        dbus_message(client.networkd().reload()),
        "Failed to reload networkd: org.freedesktop.DBus.Error.AccessDenied: no"
    );
    assert_eq!(
        dbus_message(client.networkd().reconfigure_link(12)),
        "Failed to reconfigure link 12: org.freedesktop.DBus.Error.AccessDenied: no"
    );
    assert_eq!(
        dbus_message(client.networkd().get_link_path(3)),
        "Failed to get link path for 3: org.freedesktop.DBus.Error.AccessDenied: no"
    );
    assert!(dbus_message(client.resolved().set_link_dns(1, vec![])).starts_with("Failed to set DNS servers: "));
    assert!(dbus_message(client.resolved().set_link_domains(1, vec![])).starts_with("Failed to set DNS domains: "));
    assert!(dbus_message(client.resolved().revert_link(1)).starts_with("Failed to revert DNS config: "));
    assert!(dbus_message(client.resolved().flush_caches()).starts_with("Failed to flush DNS caches: "));
    assert!(dbus_message(client.hostnamed().set_static_hostname("a")).starts_with("Failed to set static hostname: "));
    assert!(dbus_message(client.hostnamed().set_pretty_hostname("a")).starts_with("Failed to set pretty hostname: "));
    assert!(dbus_message(client.hostnamed().get_static_hostname()).starts_with("Failed to get static hostname: "));
    assert!(dbus_message(client.hostnamed().get_pretty_hostname()).starts_with("Failed to get pretty hostname: "));
    assert!(dbus_message(client.hostnamed().get_hostname()).starts_with("Failed to get hostname: "));
    assert!(dbus_message(client.hostnamed().get_machine_id()).starts_with("Failed to get machine ID: "));
    let manager = NetworkManager::new(&kernel, &bus);
    assert!(matches!(manager.revert_dns("eth0"), Err(Error::Dbus(_))));
}

#[test]
fn hostnames_are_set_without_asking() {
    let bus = Bus::new();
    let client = DbusClient::new(&bus);
    client.hostnamed().set_static_hostname("box").unwrap();
    client.hostnamed().set_pretty_hostname("My Box").unwrap();
    assert_eq!(client.networkd().get_link_path(2).unwrap(), "/org/freedesktop/network1/link/_32");
    assert_eq!(
        *bus.log.borrow(),
        vec![
            Sent::Call(DbusCall::SetStaticHostname { name: "box".to_string(), interactive: false }),
            Sent::Call(DbusCall::SetPrettyHostname { name: "My Box".to_string(), interactive: false }),
            Sent::Call(DbusCall::GetLink { ifindex: 2 }),
        ]
    );
}

#[test]
fn deleting_an_address_is_not_implemented() {
    let kernel = Kernel::new(three_links());
    let client = NetlinkClient::new(&kernel);
    let handle = client.cloneable_handle();
    let net: IpNetwork = "10.0.0.2/24".parse().unwrap();
    match handle.delete_address(2, net) {
        Err(Error::Generic(text)) => assert_eq!(text, "delete_address not yet implemented"),
        other => panic!("{:?}", other),
    }
    assert!(kernel.log.borrow().is_empty());
    assert_eq!(handle.get_link_by_name("eth0").unwrap(), 2);
    handle.add_address(2, net).unwrap();
    assert_eq!(kernel.log.borrow().len(), 2);
    assert!(std::ptr::eq(*handle.handle(), &kernel));
}

#[test]
fn the_second_step_follows_the_first() {
    match after_resolve(Ok(4), LinkAction::SetMtu(1400)) {
        Step::Act { index, action } => {
            assert_eq!(index, 4);
            assert_eq!(action, LinkAction::SetMtu(1400));
        }
        other => panic!("{:?}", other),
    }
    match after_resolve(Err(Error::netlink("down")), LinkAction::SetUp) {
        Step::Stop(Error::Netlink(cause)) => assert_eq!(cause, "down"),
        other => panic!("{:?}", other),
    }
}

#[test]
fn two_readers_see_whole_results() {
    let kernel = Kernel::new(three_links());
    let bus = Bus::new();
    let manager = NetworkManager::new(&kernel, &bus);
    let a = manager.list_links().unwrap();
    let b = manager.list_links().unwrap();
    assert_eq!(a.len(), b.len());
    for (x, y) in a.iter().zip(b.iter()) {
        assert_eq!(x.name, y.name);
        assert_eq!(x.index, y.index);
    }
}

struct Renaming {
    log: RefCell<Vec<Sent>>,
}

impl<'a> NetlinkTransport for &'a Renaming {
    fn query_links(&self, name: Option<&str>) -> Result<Vec<LinkRecord>, String> {
        self.log.borrow_mut().push(Sent::Query(name.map(|n| n.to_string())));
        Ok(vec![record(5, "enp3s0", IFF_UP, 9000), record(6, "eth0", 0, 1500)])
    }

    fn change_link(&self, index: u32, change: LinkChange) -> Result<(), String> {
        self.log.borrow_mut().push(Sent::Change(index, change));
        Ok(())
    }

    fn add_address(&self, index: u32, network: IpNetwork) -> Result<(), String> {
        self.log.borrow_mut().push(Sent::Add(index, network));
        Ok(())
    }
}

#[test]
fn the_manager_acts_on_the_first_record_of_the_reply() {
    let kernel = Renaming { log: RefCell::new(vec![]) };
    let bus = Bus::new();
    let manager = NetworkManager::new(&kernel, &bus);
    manager.set_mtu("eth0", 1400).unwrap();
    let info = manager.get_link_info("eth0").unwrap();
    assert_eq!(info.index, 5);
    assert_eq!(info.name, "enp3s0");
    manager.revert_dns("eth0").unwrap();
    assert_eq!(
        *kernel.log.borrow(),
        vec![
            Sent::Query(Some("eth0".to_string())),
            Sent::Change(5, LinkChange::Mtu(1400)),
            Sent::Query(Some("eth0".to_string())),
            Sent::Query(Some("eth0".to_string())),
        ]
    );
    assert_eq!(*bus.log.borrow(), vec![Sent::Call(DbusCall::RevertLink { ifindex: 5 })]);
}

#[test]
fn a_run_makes_the_actions_in_their_order() {
    let kernel = Kernel::new(three_links());
    let bus = Bus::new();
    let manager = NetworkManager::new(&kernel, &bus);
    let net: IpNetwork = "10.0.0.2/24".parse().unwrap();
    let actions = vec![LinkAction::SetMtu(1400), LinkAction::AddAddress(net), LinkAction::SetDown];
    manager.run_by_name("eth0", actions).unwrap();
    assert_eq!(
        *kernel.log.borrow(),
        vec![
            Sent::Query(Some("eth0".to_string())),
            Sent::Change(2, LinkChange::Mtu(1400)),
            Sent::Query(Some("eth0".to_string())),
            Sent::Add(2, net),
            Sent::Query(Some("eth0".to_string())),
            Sent::Change(2, LinkChange::Down),
        ]
    );
    manager.run_by_name("eth0", vec![]).unwrap();
    assert_eq!(kernel.log.borrow().len(), 6);
}

#[test]
fn a_run_stops_at_the_first_failure() {
    let mut kernel = Kernel::new(three_links());
    kernel.refuse = Some("Operation not permitted (os error 1)".to_string());
    let bus = Bus::new();
    let manager = NetworkManager::new(&kernel, &bus);
    match manager.run_by_name("wlan0", vec![LinkAction::SetUp, LinkAction::SetMtu(1400)]) {
        Err(Error::Netlink(cause)) => assert_eq!(cause, "Operation not permitted (os error 1)"),
        other => panic!("{:?}", other),
    }
    assert_eq!(
        *kernel.log.borrow(),
        vec![Sent::Query(Some("wlan0".to_string())), Sent::Change(7, LinkChange::Up)]
    );
    let unknown = Kernel::new(three_links());
    let manager = NetworkManager::new(&unknown, &bus);
    not_found(manager.run_by_name("eth9", vec![LinkAction::SetUp, LinkAction::RevertDns]), "eth9");
    assert_eq!(*unknown.log.borrow(), vec![Sent::Query(Some("eth9".to_string()))]);
    assert!(bus.log.borrow().is_empty());
}

#[test]
fn a_run_may_call_a_daemon() {
    let kernel = Kernel::new(three_links());
    let mut bus = Bus::new();
    bus.fail = Some(DbusFailure::Call("timed out".to_string()));
    let manager = NetworkManager::new(&kernel, &bus);
    match manager.run_by_name("eth0", vec![LinkAction::SetUp, LinkAction::Reconfigure, LinkAction::SetDown]) {
        Err(Error::Dbus(_)) => {}
        other => panic!("{:?}", other),
    }
    assert_eq!(
        *kernel.log.borrow(),
        vec![
            Sent::Query(Some("eth0".to_string())),
            Sent::Change(2, LinkChange::Up),
            Sent::Query(Some("eth0".to_string())),
        ]
    );
    assert_eq!(*bus.log.borrow(), vec![Sent::Call(DbusCall::ReconfigureLink { ifindex: 2 })]);
}
