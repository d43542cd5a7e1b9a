use netctl::cli::address::AddArgs;
use netctl::cli::apply::{matches_word, ApplyArgs, ApplyStep, InterfaceConfig};
use netctl::cli::backup::{Backup, CreateArgs, InterfaceBackup, RestoreArgs};
use netctl::cli::diff::{compare_interface, compare_states, Change, InterfaceState};
use netctl::cli::doctor::{answer_is, count_up, is_root, service_is_active};
use netctl::cli::export::{trim, ExportArgs, ExportFormat, InterfaceExport};
use netctl::cli::history::{rollback_description, ListArgs};
use netctl::cli::link::SetArgs;
use netctl::cli::profile::{LoadArgs, LoadedState, SaveArgs};
use netctl::cli::show::{mac_label, state_label, ShowArgs};
use netctl::cli::stats::{parse_counter, select_links, CounterFiles, InterfaceStats, StatsArgs};
use netctl::cli::watch::WatchArgs;
use netctl::cli::test::{AllArgs, ConnectivityArgs, PingArgs, SuiteVerdict};
use netctl::cli::validate::{
    validate_interface, validate_ip_network, AddressFault, Finding, ValidateArgs, Verdict,
};
use netctl::cli::wizard::{full_address, mtu_choice, AddressOutcome, MtuChoice, WizardArgs};
use netctl::client::{LinkChange, NetlinkTransport};
use netctl::dbus::{DbusCall, DbusFailure, DbusTransport};
use netctl::manager::{LinkAction, NetworkManager};
use netctl::netlink::{LinkAttribute, LinkRecord};
use netctl::network::{IpNetwork, LinkInfo, LinkState};
use netctl::{Error, MacAddress};
use std::cell::RefCell;

struct Kernel {
    links: Vec<LinkRecord>,
    log: RefCell<Vec<String>>,
}

impl<'a> NetlinkTransport for &'a Kernel {
    fn query_links(&self, name: Option<&str>) -> Result<Vec<LinkRecord>, String> {
        Ok(match name {
            None => self.links.clone(),
            Some(n) => self.links.iter().filter(|l| l.to_link_info().name == n).cloned().collect(),
        })
    }

    fn change_link(&self, index: u32, change: LinkChange) -> Result<(), String> {
        self.log.borrow_mut().push(format!("{} {:?}", index, change));
        Ok(())
    }

    fn add_address(&self, index: u32, network: IpNetwork) -> Result<(), String> {
        self.log.borrow_mut().push(format!("{} add {}", index, network.to_string()));
        Ok(())
    }
}

struct NoBus;

impl DbusTransport for NoBus {
    fn invoke(&self, _call: &DbusCall) -> Result<(), DbusFailure> {
        Err(DbusFailure::Proxy("no bus".to_string()))
    }

    fn fetch(&self, _call: &DbusCall) -> Result<String, DbusFailure> {
        Err(DbusFailure::Proxy("no bus".to_string()))
    }
}

fn kernel() -> Kernel {
    let rec = |index: u32, name: &str, flags: u32| LinkRecord {
        index,
        flags,
        attributes: vec![LinkAttribute::IfName(name.to_string()), LinkAttribute::Mtu(1500)],
    };
    Kernel { links: vec![rec(1, "lo", 1), rec(2, "eth0", 1), rec(3, "eth1", 0)], log: RefCell::new(vec![]) }
}

fn set(property: &str, value: &str) -> SetArgs {
    SetArgs { interface: "eth0".to_string(), property: property.to_string(), value: value.to_string() }
}

fn generic(r: Result<LinkAction, Error>) -> String {
    match r {
        Err(Error::Generic(text)) => text,
        other => panic!("{:?}", other),
    }
}

#[test]
fn link_set_decides_from_property_and_value() {
    assert_eq!(set("state", "up").plan().unwrap(), LinkAction::SetUp);
    assert_eq!(set("state", "down").plan().unwrap(), LinkAction::SetDown);
    assert_eq!(set("mtu", "9000").plan().unwrap(), LinkAction::SetMtu(9000));
    assert_eq!(set("mtu", "+1500").plan().unwrap(), LinkAction::SetMtu(1500));
    assert_eq!(set("mtu", "4294967295").plan().unwrap(), LinkAction::SetMtu(4294967295));
    assert_eq!(generic(set("state", "UP").plan()), "Invalid state 'UP'. Use 'up' or 'down'");
    assert_eq!(generic(set("mtu", "4294967296").plan()), "Invalid MTU '4294967296'. Must be a number");
    assert_eq!(generic(set("mtu", "").plan()), "Invalid MTU ''. Must be a number");
    assert_eq!(generic(set("mtu", "15 00").plan()), "Invalid MTU '15 00'. Must be a number");
    assert_eq!(
        generic(set("mac", "aa:bb:cc:dd:ee:ff").plan()),
        "MAC address setting not yet implemented. Property: mac, Value: aa:bb:cc:dd:ee:ff"
    );
    assert_eq!(generic(set("speed", "1").plan()), "Unknown property 'speed'. Valid properties: state, mtu, mac");
}

#[test]
fn link_set_acts_only_on_a_request_it_accepts() {
    let k = kernel();
    let manager = NetworkManager::new(&k, NoBus);
    set("mtu", "1400").execute(&manager).unwrap();
    assert!(set("mtu", "many").execute(&manager).is_err());
    assert!(set("mac", "x").execute(&manager).is_err());
    assert_eq!(*k.log.borrow(), vec!["2 Mtu(1400)".to_string()]);
}

#[test]
fn addr_add_reads_the_address_first() {
    let k = kernel();
    let manager = NetworkManager::new(&k, NoBus);
    let args = AddArgs { interface: "eth1".to_string(), address: "10.1.0.5/16".to_string() };
    assert_eq!(args.execute(&manager).unwrap().to_string(), "10.1.0.5/16");
    let bad = AddArgs { interface: "eth1".to_string(), address: "10.1.0.5".to_string() };
    assert!(matches!(bad.execute(&manager), Err(Error::InvalidCidr { .. })));
    let unknown = AddArgs { interface: "eth7".to_string(), address: "10.1.0.5/16".to_string() };
    assert!(matches!(unknown.execute(&manager), Err(Error::InterfaceNotFound { .. })));
    assert_eq!(*k.log.borrow(), vec!["3 add 10.1.0.5/16".to_string()]);
}

#[test]
fn show_gives_one_link_or_all() {
    let k = kernel();
    let manager = NetworkManager::new(&k, NoBus);
    let one = ShowArgs { interface: Some("eth0".to_string()), json: false }.execute(&manager).unwrap();
    assert_eq!(one.len(), 1);
    assert_eq!(one[0].index, 2);
    let all = ShowArgs { interface: None, json: true }.execute(&manager).unwrap();
    assert_eq!(all.len(), 3);
    assert!(ShowArgs { interface: Some("x".to_string()), json: false }.execute(&manager).is_err());
    assert_eq!(state_label(LinkState::Up), "UP");
    assert_eq!(state_label(LinkState::Down), "DOWN");
    assert_eq!(mac_label(&None), "-");
    assert_eq!(mac_label(&Some(MacAddress::new([1, 2, 3, 4, 5, 6]))), "01:02:03:04:05:06");
}

fn links() -> Vec<LinkInfo> {
    let k = kernel();
    let manager = NetworkManager::new(&k, NoBus);
    manager.list_links().unwrap()
}

#[test]
fn stats_selects_by_name() {
    let args = StatsArgs { interface: Some("eth1".to_string()), detailed: false, format: "table".to_string() };
    let chosen = args.select(links());
    assert_eq!(chosen.len(), 1);
    assert_eq!(chosen[0].name, "eth1");
    let all = StatsArgs { interface: None, detailed: true, format: "json".to_string() };
    assert_eq!(all.select(links()).len(), 3);
    let none = StatsArgs { interface: Some("eth9".to_string()), detailed: false, format: String::new() };
    assert!(none.select(links()).is_empty());
}

#[test]
fn counters_are_read_leniently() {
    assert_eq!(parse_counter("12345\n"), 12345);
    assert_eq!(parse_counter("  7 "), 7);
    assert_eq!(parse_counter("18446744073709551615"), u64::MAX);
    assert_eq!(parse_counter("18446744073709551616"), 0);
    assert_eq!(parse_counter(""), 0);
    assert_eq!(parse_counter("-1"), 0);
    assert_eq!(parse_counter("1 2"), 0);
}

fn float_text(bytes: u64) -> String {
    const KB: u64 = 1024;
    const MB: u64 = KB * 1024;
    const GB: u64 = MB * 1024;
    const TB: u64 = GB * 1024;
    if bytes >= TB {
        format!("{:.2} TB", bytes as f64 / TB as f64)
    } else if bytes >= GB {
        format!("{:.2} GB", bytes as f64 / GB as f64)
    } else if bytes >= MB {
        format!("{:.2} MB", bytes as f64 / MB as f64)
    } else if bytes >= KB {
        format!("{:.2} KB", bytes as f64 / KB as f64)
    } else {
        format!("{} B", bytes)
    }
}

#[test]
fn byte_amounts_are_written_in_the_largest_unit() {
    let args = StatsArgs { interface: None, detailed: false, format: String::new() };
    assert_eq!(args.format_bytes(0), "0 B");
    assert_eq!(args.format_bytes(1023), "1023 B");
    assert_eq!(args.format_bytes(1024), "1.00 KB");
    assert_eq!(args.format_bytes(1536), "1.50 KB");
    assert_eq!(args.format_bytes(1048576), "1.00 MB");
    assert_eq!(args.format_bytes(1073741824 + 536870912), "1.50 GB");
    assert_eq!(args.format_bytes(1099511627776), "1.00 TB");
    assert_eq!(args.format_bytes(u64::MAX), "16777216.00 TB");
}

#[test]
fn byte_amounts_agree_with_floating_point() {
    let args = StatsArgs { interface: None, detailed: false, format: String::new() };
    let mut x: u64 = 1;
    let mut seed: u64 = 0x9e3779b97f4a7c15;
    for _ in 0..20000 {
        seed ^= seed << 13;
        seed ^= seed >> 7;
        seed ^= seed << 17;
        let shift = (seed >> 58) as u32;
        let v = seed >> shift;
        assert_eq!(args.format_bytes(v), float_text(v), "{}", v);
        assert_eq!(args.format_bytes(x), float_text(x), "{}", x);
        x = x.wrapping_mul(3).wrapping_add(5);
    }
    for k in 0..64u32 {
        for d in [0u64, 1, 2, 5, 512, 1023] {
            let v = (1u64 << k).wrapping_add(d);
            assert_eq!(args.format_bytes(v), float_text(v), "{}", v);
            let w = (1u64 << k).wrapping_sub(d);
            assert_eq!(args.format_bytes(w), float_text(w), "{}", w);
        }
    }
    for h in 0..4000u64 {
        let v = 1024 * h / 100 + 5;
        assert_eq!(args.format_bytes(v), float_text(v), "{}", v);
        let w = 1048576 * h / 200 + 5243;
        assert_eq!(args.format_bytes(w), float_text(w), "{}", w);
    }
}

#[test]
fn addresses_of_a_configuration_are_held_against_the_rules() {
    assert_eq!(validate_ip_network("192.168.1.100/24"), Ok(()));
    assert_eq!(validate_ip_network("2001:db8::1/128"), Ok(()));
    assert_eq!(validate_ip_network("10.0.0.1/+8"), Ok(()));
    assert_eq!(validate_ip_network("10.0.0.1"), Err(AddressFault::Format));
    assert_eq!(validate_ip_network("10.0.0.1/8/9"), Err(AddressFault::Format));
    assert_eq!(validate_ip_network("10.0.0/8"), Err(AddressFault::Address));
    assert_eq!(validate_ip_network("10.0.0.1/"), Err(AddressFault::PrefixEmpty));
    assert_eq!(validate_ip_network("10.0.0.1/a"), Err(AddressFault::PrefixDigit));
    assert_eq!(validate_ip_network("10.0.0.1/+"), Err(AddressFault::PrefixDigit));
    assert_eq!(validate_ip_network("10.0.0.1/-1"), Err(AddressFault::PrefixDigit));
    assert_eq!(validate_ip_network("10.0.0.1/25x"), Err(AddressFault::PrefixDigit));
    assert_eq!(validate_ip_network("10.0.0.1/256"), Err(AddressFault::PrefixTooLarge));
    assert_eq!(validate_ip_network("10.0.0.1/999x"), Err(AddressFault::PrefixTooLarge));
    assert_eq!(validate_ip_network("10.0.0.1/33"), Err(AddressFault::Ipv4Range));
    assert_eq!(validate_ip_network("::1/129"), Err(AddressFault::Ipv6Range));
    assert_eq!(AddressFault::PrefixDigit.message(), "invalid digit found in string");
    assert_eq!(AddressFault::Ipv4Range.message(), "IPv4 prefix must be 0-32");
}

fn config(name: &str, state: Option<&str>, mtu: Option<u32>, addresses: &[&str]) -> InterfaceConfig {
    InterfaceConfig {
        name: name.to_string(),
        state: state.map(|s| s.to_string()),
        mtu,
        addresses: addresses.iter().map(|a| a.to_string()).collect(),
    }
}

fn messages(iface: &InterfaceConfig) -> (Vec<String>, Vec<String>) {
    let findings = validate_interface(iface);
    let errors = findings.iter().filter(|f| f.is_error()).map(|f| f.message()).collect();
    let warnings = findings.iter().filter(|f| !f.is_error()).map(|f| f.message()).collect();
    (errors, warnings)
}

#[test]
fn a_sound_interface_has_no_findings() {
    assert!(validate_interface(&config("eth0", Some("Up"), Some(1500), &["10.0.0.1/24"])).is_empty());
    assert!(validate_interface(&config("eth0", None, None, &["::1/64"])).is_empty());
}

#[test]
fn findings_come_in_the_order_of_the_rules() {
    let iface = config("", Some("sideways"), Some(60), &["10.0.0.1/24", "bad", "10.0.0.1/24", "bad"]);
    let (errors, warnings) = messages(&iface);
    assert_eq!(
        errors,
        vec![
            "Interface name cannot be empty",
            "Invalid state 'sideways' for interface '' (must be 'up' or 'down')",
            "MTU 60 for interface '' is too small (minimum 68)",
            "Invalid address 'bad' for interface '': Address must be in format IP/PREFIX (e.g., 192.168.1.100/24)",
            "Invalid address 'bad' for interface '': Address must be in format IP/PREFIX (e.g., 192.168.1.100/24)",
        ]
    );
    assert_eq!(
        warnings,
        vec!["Duplicate address '10.0.0.1/24' on interface ''", "Duplicate address 'bad' on interface ''"]
    );
}

#[test]
fn name_and_mtu_rules_have_their_bounds() {
    let long = "a".repeat(16);
    assert_eq!(
        messages(&config(&long, None, None, &["::1/64"])).0,
        vec![format!("Interface name '{}' is too long (max 15 characters)", long)]
    );
    assert!(messages(&config(&"a".repeat(15), None, None, &["::1/64"])).0.is_empty());
    assert_eq!(validate_interface(&config("ééééééé", None, None, &["::1/64"])).len(), 0);
    assert_eq!(validate_interface(&config("éééééééé", None, None, &["::1/64"])).len(), 1);
    let with_mtu = |mtu: u32| validate_interface(&config("e", None, Some(mtu), &["::1/64"]));
    assert!(matches!(with_mtu(67)[0], Finding::MtuTooSmall { mtu: 67, .. }));
    assert!(with_mtu(68).is_empty());
    assert!(with_mtu(8999).is_empty());
    assert_eq!(with_mtu(9000)[0].message(), "Jumbo frames (MTU 9000) on interface 'e' require network infrastructure support");
    assert_eq!(with_mtu(9001)[0].message(), "MTU 9001 for interface 'e' is unusually large (standard max is 9000)");
    assert!(with_mtu(65535).is_empty());
    assert_eq!(with_mtu(65536)[0].message(), "MTU 65536 for interface 'e' is too large (maximum 65535)");
    assert_eq!(
        messages(&config("e", None, None, &[])).1,
        vec!["Interface 'e' has no addresses configured"]
    );
}

#[test]
fn the_verdict_follows_errors_warnings_and_strictness() {
    let lax = ValidateArgs { file: "net.yaml".to_string(), strict: false };
    let strict = ValidateArgs { file: "net.yaml".to_string(), strict: true };
    assert_eq!(lax.verdict(0, 0), Verdict::Passed);
    assert_eq!(strict.verdict(0, 0), Verdict::Passed);
    assert_eq!(lax.verdict(0, 2), Verdict::PassedWithWarnings);
    assert_eq!(strict.verdict(0, 2), Verdict::FailedStrict);
    assert_eq!(lax.verdict(1, 0), Verdict::Failed);
    assert_eq!(strict.verdict(3, 2), Verdict::Failed);
}

#[test]
fn words_match_in_any_case() {
    assert!(matches_word("UP", "up"));
    assert!(matches_word("dOwN", "down"));
    assert!(!matches_word("u p", "up"));
    assert!(!matches_word("ups", "up"));
    assert!(!matches_word("", "up"));
}

#[test]
fn apply_plans_state_mtu_and_addresses() {
    let args = ApplyArgs { file: "net.toml".to_string(), dry_run: false };
    let iface = config("eth0", Some("UP"), Some(1400), &["10.0.0.9/24", "nonsense"]);
    let plan = args.plan_interface(&iface);
    assert_eq!(plan.len(), 4);
    assert_eq!(plan[0], ApplyStep::Up);
    assert_eq!(plan[1], ApplyStep::Mtu(1400));
    assert!(matches!(&plan[2], ApplyStep::AddAddress { text, .. } if text == "10.0.0.9/24"));
    assert_eq!(plan[3], ApplyStep::SkipAddress("nonsense".to_string()));
    let odd = args.plan_interface(&config("eth0", Some("maybe"), None, &[]));
    assert_eq!(odd, vec![ApplyStep::SkipState("maybe".to_string())]);
}

#[test]
fn apply_does_nothing_in_a_dry_run() {
    let k = kernel();
    let manager = NetworkManager::new(&k, NoBus);
    let iface = config("eth0", Some("down"), Some(1400), &["10.0.0.9/24", "nonsense"]);
    let dry = ApplyArgs { file: String::new(), dry_run: true };
    let steps = dry.apply_interface(&manager, &iface).unwrap();
    assert_eq!(steps[2], ApplyStep::WouldAddAddress("10.0.0.9/24".to_string()));
    assert_eq!(steps[3], ApplyStep::WouldAddAddress("nonsense".to_string()));
    assert!(k.log.borrow().is_empty());
    let wet = ApplyArgs { file: String::new(), dry_run: false };
    wet.apply_interface(&manager, &iface).unwrap();
    assert_eq!(
        *k.log.borrow(),
        vec!["2 Down".to_string(), "2 Mtu(1400)".to_string(), "2 add 10.0.0.9/24".to_string()]
    );
    let ghost = config("eth9", Some("up"), None, &[]);
    assert!(matches!(wet.apply_interface(&manager, &ghost), Err(Error::InterfaceNotFound { .. })));
}

fn state(name: &str, st: &str, mtu: u32, mac: Option<&str>, addrs: &[&str]) -> InterfaceState {
    InterfaceState {
        name: name.to_string(),
        state: st.to_string(),
        mtu,
        mac: mac.map(|m| m.to_string()),
        addresses: addrs.iter().map(|a| a.to_string()).collect(),
    }
}

#[test]
fn equal_states_have_no_changes() {
    let a = state("eth0", "Up", 1500, Some("aa:bb:cc:dd:ee:ff"), &["10.0.0.1/24"]);
    assert!(compare_interface(&a, &a.clone()).is_empty());
    assert!(compare_states(&vec![a.clone()], &vec![a]).is_empty());
}

#[test]
fn changed_states_are_listed_line_by_line() {
    let a = state("eth0", "Up", 1500, Some("aa:bb:cc:dd:ee:ff"), &["10.0.0.1/24", "10.0.0.2/24", "10.0.0.1/24"]);
    let b = state("eth0", "Down", 9000, None, &["10.0.0.2/24", "10.0.0.3/24"]);
    assert_eq!(
        compare_interface(&a, &b),
        vec![
            Change::Interface("eth0".to_string()),
            Change::State { from: "Up".to_string(), to: "Down".to_string() },
            Change::Mtu { from: 1500, to: 9000 },
            Change::Mac { from: Some("aa:bb:cc:dd:ee:ff".to_string()), to: None },
            Change::AddressRemoved("10.0.0.1/24".to_string()),
            Change::AddressAdded("10.0.0.3/24".to_string()),
        ]
    );
}

#[test]
fn interfaces_of_one_side_only_are_named_once() {
    let first = vec![state("a", "Up", 1, None, &[]), state("b", "Up", 1, None, &[]), state("a", "Up", 1, None, &[])];
    let second = vec![state("b", "Up", 2, None, &[]), state("c", "Up", 1, None, &[])];
    assert_eq!(
        compare_states(&first, &second),
        vec![
            Change::OnlyInFirst("a".to_string()),
            Change::OnlyInSecond("c".to_string()),
            Change::Interface("b".to_string()),
            Change::Mtu { from: 1, to: 2 },
        ]
    );
}

#[test]
fn links_are_saved_as_text() {
    let all = links();
    let s = InterfaceState::from_link(&all[2]);
    assert_eq!(s, state("eth1", "Down", 1500, None, &[]));
    let exported = InterfaceExport::from_link(&all[1]);
    assert_eq!(exported.state, "up");
    let saved = InterfaceBackup::from_link(&all[1]);
    assert_eq!((saved.index, saved.state.as_str()), (2, "Up"));
    let profile = SaveArgs { name: "home".to_string(), description: Some("d".to_string()) }
        .profile(&all, "2024-01-01T00:00:00+00:00".to_string());
    assert_eq!(profile.name, "home");
    assert_eq!(profile.description, Some("d".to_string()));
    assert_eq!(profile.interfaces.len(), 3);
    assert_eq!(profile.interfaces[0].state, "Up");
    assert_eq!(InterfaceState::from_profile(&profile.interfaces[2]), s);
    let backup: Backup = CreateArgs { name: "b1".to_string(), description: None }.backup(&all, "now".to_string());
    assert_eq!(backup.interfaces.len(), 3);
    assert_eq!(backup.created_at, "now");
    let auto = RestoreArgs::auto_backup("b1", "20240101_000000", "now".to_string(), &all);
    assert_eq!(auto.name, "auto_before_restore_20240101_000000");
    assert_eq!(auto.description, Some("Automatic backup before restoring 'b1'".to_string()));
}

#[test]
fn loading_sets_state_then_mtu_and_restoring_mtu_then_state() {
    let k = kernel();
    let manager = NetworkManager::new(&k, NoBus);
    let all = links();
    let mut iface = SaveArgs { name: "p".to_string(), description: None }.profile(&all, String::new()).interfaces[1].clone();
    iface.state = "DOWN".to_string();
    let load = LoadArgs { name: "p".to_string() };
    assert_eq!(load.load_interface(&manager, &iface).unwrap(), LoadedState::Down);
    iface.state = "odd".to_string();
    assert_eq!(load.load_interface(&manager, &iface).unwrap(), LoadedState::Unchanged);
    let restore = RestoreArgs { name: "b".to_string(), yes: true };
    let mut saved = InterfaceBackup::from_link(&all[2]);
    assert_eq!(restore.restore_interface(&manager, &saved).unwrap(), LoadedState::Down);
    saved.state = "up".to_string();
    assert_eq!(restore.restore_interface(&manager, &saved).unwrap(), LoadedState::Unchanged);
    assert_eq!(
        *k.log.borrow(),
        vec!["2 Down", "2 Mtu(1500)", "2 Mtu(1500)", "3 Mtu(1500)", "3 Down", "3 Mtu(1500)"]
    );
}

#[test]
fn export_chooses_links_and_format() {
    let args = |list: Option<&str>, format: &str| ExportArgs {
        output: "out".to_string(),
        format: format.to_string(),
        interfaces: list.map(|l| l.to_string()),
        pretty: false,
    };
    assert_eq!(args(None, "yaml").select(links()).len(), 3);
    let some = args(Some(" eth1 ,lo,, eth9"), "yaml").select(links());
    assert_eq!(some.iter().map(|l| l.name.as_str()).collect::<Vec<_>>(), vec!["lo", "eth1"]);
    assert!(args(Some(""), "yaml").select(links()).is_empty());
    assert_eq!(args(None, "JSON").chosen_format(), ExportFormat::Json);
    assert_eq!(args(None, "toml").chosen_format(), ExportFormat::Toml);
    assert_eq!(args(None, "yaml").chosen_format(), ExportFormat::Yaml);
    assert_eq!(args(None, "xml").chosen_format(), ExportFormat::Yaml);
    let t: String = trim(&"\t a b \u{a0}\n".chars().collect()).into_iter().collect();
    assert_eq!(t, "a b");
    assert!(trim(&" \n ".chars().collect()).is_empty());
}

#[test]
fn history_lists_up_to_the_limit() {
    let list = ListArgs { limit: 10 };
    assert_eq!((list.shown(3), list.left_out(3)), (3, 0));
    assert_eq!((list.shown(10), list.left_out(10)), (10, 0));
    assert_eq!((list.shown(25), list.left_out(25)), (10, 15));
    assert_eq!(rollback_description("20240101_120000"), "Rollback to 20240101_120000");
}

#[test]
fn doctor_counts_and_reads_answers() {
    assert_eq!(count_up(&links()), 2);
    assert_eq!(count_up(&vec![]), 0);
    assert!(service_is_active("active\n"));
    assert!(service_is_active("  active"));
    assert!(!service_is_active("inactive\n"));
    assert!(!service_is_active("Active"));
    assert!(!service_is_active(""));
}

#[test]
fn connectivity_tests_named_or_up_links() {
    let up = ConnectivityArgs { interface: None }.select(&links());
    assert_eq!(up.iter().map(|l| l.name.as_str()).collect::<Vec<_>>(), vec!["lo", "eth0"]);
    let named = ConnectivityArgs { interface: Some("eth1".to_string()) }.select(&links());
    assert_eq!(named.len(), 1);
    assert_eq!(named[0].state, LinkState::Down);
}

#[test]
fn ping_arguments_follow_the_options() {
    let plain = PingArgs { host: "example.org".to_string(), count: 4, interface: None };
    assert_eq!(plain.command_args(), vec!["-c", "4", "example.org"]);
    let via = PingArgs { host: "::1".to_string(), count: 10, interface: Some("eth0".to_string()) };
    assert_eq!(via.command_args(), vec!["-c", "10", "::1", "-I", "eth0"]);
}

#[test]
fn wizard_choices_stand_for_values() {
    assert_eq!(mtu_choice("1500 (Standard Ethernet)"), MtuChoice::Value(1500));
    assert_eq!(mtu_choice("9000 (Jumbo Frames)"), MtuChoice::Value(9000));
    assert_eq!(mtu_choice("1280 (IPv6 minimum)"), MtuChoice::Value(1280));
    assert_eq!(mtu_choice("Custom value"), MtuChoice::Custom);
    assert_eq!(mtu_choice("anything"), MtuChoice::Value(1500));
    assert_eq!(full_address("10.0.0.1", "24"), "10.0.0.1/24");
}

#[test]
fn answers_are_compared_without_white_space() {
    assert!(is_root("0\n"));
    assert!(!is_root("1000\n"));
    assert!(!is_root(""));
    assert!(answer_is(" yes ", "yes"));
    assert!(!answer_is("y es", "yes"));
}

#[test]
fn a_suite_ends_by_its_passes() {
    let all = AllArgs {};
    assert_eq!(all.summary(&vec![true, true, true]), (3, SuiteVerdict::AllPassed));
    assert_eq!(all.summary(&vec![true, false, true, false, false]), (2, SuiteVerdict::SomePassed));
    assert_eq!(all.summary(&vec![false, false]), (0, SuiteVerdict::AllFailed));
    assert_eq!(all.summary(&vec![]), (0, SuiteVerdict::AllPassed));
}

#[test]
fn a_complete_setup_sets_mtu_address_and_state_in_this_order() {
    let k = kernel();
    let manager = NetworkManager::new(&k, NoBus);
    let w = WizardArgs {};
    assert_eq!(
        w.apply_setup(&manager, "eth0", "down", 1400, Some("10.2.0.1/16")).unwrap(),
        (AddressOutcome::Added, LoadedState::Down)
    );
    assert_eq!(
        w.apply_setup(&manager, "eth1", "up", 1500, Some("nonsense")).unwrap(),
        (AddressOutcome::Skipped, LoadedState::Up)
    );
    assert_eq!(
        w.apply_setup(&manager, "lo", "Up", 9000, None).unwrap(),
        (AddressOutcome::NotAsked, LoadedState::Unchanged)
    );
    assert!(matches!(
        w.apply_setup(&manager, "eth9", "up", 1500, None),
        Err(Error::InterfaceNotFound { .. })
    ));
    assert_eq!(
        *k.log.borrow(),
        vec!["2 Mtu(1400)", "2 add 10.2.0.1/16", "2 Down", "3 Mtu(1500)", "3 Up", "1 Mtu(9000)"]
    );
}

fn files(contents: [Option<&str>; 6]) -> CounterFiles {
    let text = |i: usize| contents[i].map(|t| t.to_string());
    CounterFiles {
        rx_bytes: text(0),
        tx_bytes: text(1),
        rx_packets: text(2),
        tx_packets: text(3),
        rx_errors: text(4),
        tx_errors: text(5),
    }
}

#[test]
fn each_counter_comes_from_its_own_file() {
    let args = StatsArgs { interface: None, detailed: true, format: "table".to_string() };
    let all = files([Some("1\n"), Some("2\n"), Some("3\n"), Some("4\n"), Some("5\n"), Some("6\n")]);
    assert_eq!(
        args.read_interface_stats(&all).unwrap(),
        InterfaceStats { rx_bytes: 1, tx_bytes: 2, rx_packets: 3, tx_packets: 4, rx_errors: 5, tx_errors: 6 }
    );
    let big = files([Some("18446744073709551615\n"), Some(" 1048576 "), None, None, None, None]);
    let s = args.read_interface_stats(&big).unwrap();
    assert_eq!(s.rx_bytes, u64::MAX);
    assert_eq!(s.tx_bytes, 1048576);
    assert_eq!(s.rx_packets, 0);
}

#[test]
fn a_counter_that_cannot_be_read_is_zero() {
    let args = StatsArgs { interface: None, detailed: false, format: "json".to_string() };
    assert_eq!(args.read_interface_stats(&files([None; 6])).unwrap(), InterfaceStats::default());
    let odd = files([Some(""), Some("many"), Some("-4"), Some("18446744073709551616"), Some("1 2"), Some("0x10")]);
    assert_eq!(args.read_interface_stats(&odd).unwrap(), InterfaceStats::default());
    assert_eq!(args.read_stat(&None).unwrap(), 0);
    assert_eq!(args.read_stat(&Some("\t42\n".to_string())).unwrap(), 42);
    assert_eq!(args.read_stat(&Some("forty".to_string())).unwrap(), 0);
}

#[test]
fn watch_filters_the_listing_by_name() {
    let one = WatchArgs { interface: Some("eth1".to_string()), interval: 2 };
    let names = |v: Vec<LinkInfo>| v.into_iter().map(|l| l.name).collect::<Vec<String>>();
    assert_eq!(names(one.select(links())), vec!["eth1"]);
    let all = WatchArgs { interface: None, interval: 2 };
    assert_eq!(all.select(links()).len(), links().len());
    let unknown = WatchArgs { interface: Some("eth9".to_string()), interval: 1 };
    assert!(unknown.select(links()).is_empty());
    assert!(select_links(vec![], &Some("lo".to_string())).is_empty());
    assert_eq!(names(select_links(links(), &None)), vec!["lo", "eth0", "eth1"]);
}

struct Other;

impl NetlinkTransport for Other {
    fn query_links(&self, _name: Option<&str>) -> Result<Vec<LinkRecord>, String> {
        Ok(vec![LinkRecord {
            index: 9,
            flags: 0,
            attributes: vec![LinkAttribute::IfName("enp3s0".to_string()), LinkAttribute::Mtu(1280)],
        }])
    }

    fn change_link(&self, _index: u32, _change: LinkChange) -> Result<(), String> {
        Ok(())
    }

    fn add_address(&self, _index: u32, _network: IpNetwork) -> Result<(), String> {
        Ok(())
    }
}

#[test]
fn show_gives_what_the_kernel_answered_with() {
    let manager = NetworkManager::new(Other, NoBus);
    let shown = ShowArgs { interface: Some("eth0".to_string()), json: false }.execute(&manager).unwrap();
    assert_eq!(shown.len(), 1);
    assert_eq!(shown[0].index, 9);
    assert_eq!(shown[0].name, "enp3s0");
    assert_eq!(shown[0].mtu, 1280);
}
