//! Calls to the three system daemons: what is sent, and how a failure is
//! reported.
//!
//! The network daemon reloads its configuration and reconfigures links,
//! the resolver daemon holds the DNS settings of each link, the hostname
//! daemon holds the names of the host. A call is described by a
//! [`DbusCall`]; a [`DbusTransport`] carries it to the daemon. Every
//! failure becomes [`Error::Dbus`] with the cause as the daemon or the bus
//! worded it.

use vstd::prelude::*;
use crate::error::{text_result, unit_result, Error, ErrorModel};
use crate::ip::{IpAddr, IpAddrModel};
use crate::text::{number_text, push_number};

verus! {

/// The address family of IPv4 in a DNS server entry.
pub const AF_INET: i32 = 2;

/// The address family of IPv6 in a DNS server entry.
pub const AF_INET6: i32 = 10;

/// One of the three daemons.
#[derive(Debug, Clone, Copy, PartialEq, Eq, Structural)]
pub enum Daemon {
    Networkd,
    Resolved,
    Hostnamed,
}

/// A method call or a property read on one of the daemons.
#[derive(Debug, Clone, PartialEq, Eq)]
pub enum DbusCall {
    /// `Reload()` of the network daemon.
    Reload,
    /// `ReconfigureLink(ifindex)` of the network daemon.
    ReconfigureLink { ifindex: i32 },
    /// `GetLink(ifindex)` of the network daemon, which gives an object path.
    GetLink { ifindex: i32 },
    /// `SetLinkDNS(ifindex, servers)` of the resolver daemon; each server
    /// is an address family and the octets of the address.
    SetLinkDns { ifindex: i32, addresses: Vec<(i32, Vec<u8>)> },
    /// `SetLinkDomains(ifindex, domains)` of the resolver daemon; each
    /// domain comes with the mark "for routing only".
    SetLinkDomains { ifindex: i32, domains: Vec<(String, bool)> },
    /// `RevertLink(ifindex)` of the resolver daemon.
    RevertLink { ifindex: i32 },
    /// `FlushCaches()` of the resolver daemon.
    FlushCaches,
    /// `SetStaticHostname(name, interactive)` of the hostname daemon.
    SetStaticHostname { name: String, interactive: bool },
    /// `SetPrettyHostname(name, interactive)` of the hostname daemon.
    SetPrettyHostname { name: String, interactive: bool },
    /// The property `StaticHostname` of the hostname daemon.
    StaticHostname,
    /// The property `PrettyHostname` of the hostname daemon.
    PrettyHostname,
    /// The property `Hostname` of the hostname daemon.
    Hostname,
    /// The property `MachineID` of the hostname daemon.
    MachineId,
}

/// A DNS server entry as plain values: the family and the octets.
pub struct DnsEntryModel {
    pub family: i32,
    pub octets: Seq<u8>,
}

/// A domain entry as plain values: the name and the mark "for routing
/// only".
pub struct DomainEntryModel {
    pub name: Seq<char>,
    pub routing_only: bool,
}

/// A [`DbusCall`] as plain values.
pub enum DbusCallModel {
    Reload,
    ReconfigureLink { ifindex: i32 },
    GetLink { ifindex: i32 },
    SetLinkDns { ifindex: i32, addresses: Seq<DnsEntryModel> },
    SetLinkDomains { ifindex: i32, domains: Seq<DomainEntryModel> },
    RevertLink { ifindex: i32 },
    FlushCaches,
    SetStaticHostname { name: Seq<char>, interactive: bool },
    SetPrettyHostname { name: Seq<char>, interactive: bool },
    StaticHostname,
    PrettyHostname,
    Hostname,
    MachineId,
}

/// The server entries as plain values.
pub open spec fn dns_entries_view(entries: Seq<(i32, Vec<u8>)>) -> Seq<DnsEntryModel> {
    Seq::new(
        entries.len(),
        |i: int| DnsEntryModel { family: entries[i].0, octets: entries[i].1@ },
    )
}

/// The domain entries as plain values.
pub open spec fn domain_entries_view(entries: Seq<(String, bool)>) -> Seq<DomainEntryModel> {
    Seq::new(
        entries.len(),
        |i: int| DomainEntryModel { name: entries[i].0@, routing_only: entries[i].1 },
    )
}

impl View for DbusCall {
    type V = DbusCallModel;

    open spec fn view(&self) -> DbusCallModel {
        match self {
            DbusCall::Reload => DbusCallModel::Reload,
            DbusCall::ReconfigureLink { ifindex } => DbusCallModel::ReconfigureLink {
                ifindex: *ifindex,
            },
            DbusCall::GetLink { ifindex } => DbusCallModel::GetLink { ifindex: *ifindex },
            DbusCall::SetLinkDns { ifindex, addresses } => DbusCallModel::SetLinkDns {
                ifindex: *ifindex,
                addresses: dns_entries_view(addresses@),
            },
            DbusCall::SetLinkDomains { ifindex, domains } => DbusCallModel::SetLinkDomains {
                ifindex: *ifindex,
                domains: domain_entries_view(domains@),
            },
            DbusCall::RevertLink { ifindex } => DbusCallModel::RevertLink { ifindex: *ifindex },
            DbusCall::FlushCaches => DbusCallModel::FlushCaches,
            DbusCall::SetStaticHostname { name, interactive } => DbusCallModel::SetStaticHostname {
                name: name@,
                interactive: *interactive,
            },
            DbusCall::SetPrettyHostname { name, interactive } => DbusCallModel::SetPrettyHostname {
                name: name@,
                interactive: *interactive,
            },
            DbusCall::StaticHostname => DbusCallModel::StaticHostname,
            DbusCall::PrettyHostname => DbusCallModel::PrettyHostname,
            DbusCall::Hostname => DbusCallModel::Hostname,
            DbusCall::MachineId => DbusCallModel::MachineId,
        }
    }
}

impl DbusCallModel {
    /// The name of the method or property on the bus.
    pub open spec fn member(self) -> Seq<char> {
        match self {
            DbusCallModel::Reload => "Reload"@,
            DbusCallModel::ReconfigureLink { .. } => "ReconfigureLink"@,
            DbusCallModel::GetLink { .. } => "GetLink"@,
            DbusCallModel::SetLinkDns { .. } => "SetLinkDNS"@,
            DbusCallModel::SetLinkDomains { .. } => "SetLinkDomains"@,
            DbusCallModel::RevertLink { .. } => "RevertLink"@,
            DbusCallModel::FlushCaches => "FlushCaches"@,
            DbusCallModel::SetStaticHostname { .. } => "SetStaticHostname"@,
            DbusCallModel::SetPrettyHostname { .. } => "SetPrettyHostname"@,
            DbusCallModel::StaticHostname => "StaticHostname"@,
            DbusCallModel::PrettyHostname => "PrettyHostname"@,
            DbusCallModel::Hostname => "Hostname"@,
            DbusCallModel::MachineId => "MachineID"@,
        }
    }

    /// The daemon that serves the call.
    pub open spec fn daemon(self) -> Daemon {
        match self {
            DbusCallModel::Reload => Daemon::Networkd,
            DbusCallModel::ReconfigureLink { .. } => Daemon::Networkd,
            DbusCallModel::GetLink { .. } => Daemon::Networkd,
            DbusCallModel::SetLinkDns { .. } => Daemon::Resolved,
            DbusCallModel::SetLinkDomains { .. } => Daemon::Resolved,
            DbusCallModel::RevertLink { .. } => Daemon::Resolved,
            DbusCallModel::FlushCaches => Daemon::Resolved,
            _ => Daemon::Hostnamed,
        }
    }
}

/// The index of an interface as the daemons take it: the same 32 bits, read
/// as a signed number.
pub open spec fn ifindex_of(index: u32) -> i32 {
    index as i32
}

/// The server entry of an address: family 2 and four octets for IPv4,
/// family 10 and sixteen octets for IPv6, the octets in the order of the
/// wire.
pub open spec fn dns_entry_of(addr: IpAddrModel) -> DnsEntryModel {
    match addr {
        IpAddrModel::V4(octets) => DnsEntryModel { family: AF_INET, octets },
        IpAddrModel::V6(groups) => DnsEntryModel {
            family: AF_INET6,
            octets: Seq::new(
                16,
                |i: int|
                    if i % 2 == 0 {
                        (groups[i / 2] / 256) as u8
                    } else {
                        (groups[i / 2] % 256) as u8
                    },
            ),
        },
    }
}

/// The domain entry of a name: the name, for search and for routing.
pub open spec fn domain_entry_of(name: Seq<char>) -> DomainEntryModel {
    DomainEntryModel { name, routing_only: false }
}

/// The server entries of the addresses, one for each and in their order.
pub open spec fn dns_entries_of(addrs: Seq<IpAddrModel>) -> Seq<DnsEntryModel> {
    Seq::new(addrs.len(), |i: int| dns_entry_of(addrs[i]))
}

/// The domain entries of the names, one for each and in their order.
pub open spec fn domain_entries_of(names: Seq<Seq<char>>) -> Seq<DomainEntryModel> {
    Seq::new(names.len(), |i: int| domain_entry_of(names[i]))
}

/// The addresses as plain values.
pub open spec fn addrs_view(addrs: Seq<IpAddr>) -> Seq<IpAddrModel> {
    Seq::new(addrs.len(), |i: int| addrs[i]@)
}

/// The names as plain values.
pub open spec fn names_view(names: Seq<String>) -> Seq<Seq<char>> {
    Seq::new(names.len(), |i: int| names[i]@)
}

/// The index of an interface as the daemons take it.
pub fn ifindex(index: u32) -> (i: i32)
    ensures
        i == ifindex_of(index),
{
    #[verifier::truncate]
    (index as i32)
}

/// The server entry of one address.
pub fn ip_to_dbus_format(addr: &IpAddr) -> (entry: (i32, Vec<u8>))
    ensures
        (DnsEntryModel { family: entry.0, octets: entry.1@ }) == dns_entry_of(addr@),
        addr@ is V4 ==> entry.0 == 2 && entry.1@.len() == 4,
        addr@ is V6 ==> entry.0 == 10 && entry.1@.len() == 16,
{
    match addr {
        IpAddr::V4(v4) => {
            let o = v4.octets();
            let mut octets: Vec<u8> = Vec::new();
            octets.push(o[0]);
            octets.push(o[1]);
            octets.push(o[2]);
            octets.push(o[3]);
            proof {
                v4.lemma_len();
            }
            assert(octets@ =~= v4@);
            (AF_INET, octets)
        },
        IpAddr::V6(v6) => {
            let o = v6.octets();
            let mut octets: Vec<u8> = Vec::new();
            let mut i: usize = 0;
            while i < 16
                invariant
                    0 <= i <= 16,
                    octets@.len() == i,
                    forall|k: int| 0 <= k < i ==> octets@[k] == o@[k],
                decreases 16 - i,
            {
                octets.push(o[i]);
                i += 1;
            }
            proof {
                v6.lemma_len();
                let want = dns_entry_of(addr@).octets;
                assert forall|k: int| 0 <= k < 16 implies octets@[k] == want[k] by {
                    let g = k / 2;
                    assert(o@[2 * g] == (v6@[g] / 256) as u8);
                    assert(o@[2 * g + 1] == (v6@[g] % 256) as u8);
                }
                assert(octets@ =~= want);
            }
            (AF_INET6, octets)
        },
    }
}

impl DbusCall {
    /// The daemon that serves the call.
    pub fn daemon(&self) -> (d: Daemon)
        ensures
            d == self@.daemon(),
    {
        match self {
            DbusCall::Reload => Daemon::Networkd,
            DbusCall::ReconfigureLink { .. } => Daemon::Networkd,
            DbusCall::GetLink { .. } => Daemon::Networkd,
            DbusCall::SetLinkDns { .. } => Daemon::Resolved,
            DbusCall::SetLinkDomains { .. } => Daemon::Resolved,
            DbusCall::RevertLink { .. } => Daemon::Resolved,
            DbusCall::FlushCaches => Daemon::Resolved,
            _ => Daemon::Hostnamed,
        }
    }

    /// The name of the method or property on the bus.
    pub fn member(&self) -> (name: &'static str)
        ensures
            name@ == self@.member(),
    {
        match self {
            DbusCall::Reload => "Reload",
            DbusCall::ReconfigureLink { .. } => "ReconfigureLink",
            DbusCall::GetLink { .. } => "GetLink",
            DbusCall::SetLinkDns { .. } => "SetLinkDNS",
            DbusCall::SetLinkDomains { .. } => "SetLinkDomains",
            DbusCall::RevertLink { .. } => "RevertLink",
            DbusCall::FlushCaches => "FlushCaches",
            DbusCall::SetStaticHostname { .. } => "SetStaticHostname",
            DbusCall::SetPrettyHostname { .. } => "SetPrettyHostname",
            DbusCall::StaticHostname => "StaticHostname",
            DbusCall::PrettyHostname => "PrettyHostname",
            DbusCall::Hostname => "Hostname",
            DbusCall::MachineId => "MachineID",
        }
    }

    /// The call that sets the DNS servers of a link: one entry for each
    /// server, in the order given.
    pub fn set_link_dns(index: u32, servers: &Vec<IpAddr>) -> (call: DbusCall)
        ensures
            call@ == (DbusCallModel::SetLinkDns {
                ifindex: ifindex_of(index),
                addresses: dns_entries_of(addrs_view(servers@)),
            }),
    {
        let mut addresses: Vec<(i32, Vec<u8>)> = Vec::new();
        let mut i: usize = 0;
        while i < servers.len()
            invariant
                0 <= i <= servers@.len(),
                addresses@.len() == i,
                forall|k: int|
                    0 <= k < i ==> (DnsEntryModel {
                        family: (#[trigger] addresses@[k]).0,
                        octets: addresses@[k].1@,
                    }) == dns_entry_of(servers@[k]@),
            decreases servers@.len() - i,
        {
            addresses.push(ip_to_dbus_format(&servers[i]));
            i += 1;
        }
        let call = DbusCall::SetLinkDns { ifindex: ifindex(index), addresses };
        assert(call@->SetLinkDns_addresses =~= dns_entries_of(addrs_view(servers@)));
        call
    }

    /// The call that sets the domains of a link: one entry for each
    /// domain, in the order given, none of them for routing only.
    pub fn set_link_domains(index: u32, domains: Vec<String>) -> (call: DbusCall)
        ensures
            call@ == (DbusCallModel::SetLinkDomains {
                ifindex: ifindex_of(index),
                domains: domain_entries_of(names_view(domains@)),
            }),
    {
        let mut entries: Vec<(String, bool)> = Vec::new();
        let mut i: usize = 0;
        while i < domains.len()
            invariant
                0 <= i <= domains@.len(),
                entries@.len() == i,
                forall|k: int|
                    0 <= k < i ==> (#[trigger] entries@[k]).0@ == domains@[k]@ && !entries@[k].1,
            decreases domains@.len() - i,
        {
            entries.push((domains[i].clone(), false));
            i += 1;
        }
        let call = DbusCall::SetLinkDomains { ifindex: ifindex(index), domains: entries };
        assert(call@->SetLinkDomains_domains =~= domain_entries_of(names_view(domains@)));
        call
    }
}

/// How a call failed: before it was made, when no proxy for the daemon
/// could be set up, or in the making.
#[derive(Debug, Clone, PartialEq, Eq)]
pub enum DbusFailure {
    /// No proxy for the daemon; the text is the cause.
    Proxy(String),
    /// The call itself; the text is the cause.
    Call(String),
}

/// The name of a daemon in a message.
pub open spec fn daemon_name(daemon: Daemon) -> Seq<char> {
    match daemon {
        Daemon::Networkd => "networkd"@,
        Daemon::Resolved => "resolved"@,
        Daemon::Hostnamed => "hostnamed"@,
    }
}

/// The message of a failed call: for a proxy that could not be set up,
/// `Failed to create <daemon> proxy: <cause>`; else what was being done,
/// a colon, and the cause.
pub open spec fn failure_message(daemon: Daemon, doing: Seq<char>, failure: DbusFailure) -> Seq<
    char,
> {
    match failure {
        DbusFailure::Proxy(cause) => "Failed to create "@ + daemon_name(daemon) + " proxy: "@
            + cause@,
        DbusFailure::Call(cause) => doing + ": "@ + cause@,
    }
}

/// The error of a failed call.
pub fn wrap_failure(daemon: Daemon, doing: &str, failure: DbusFailure) -> (e: Error)
    ensures
        e@ == ErrorModel::Dbus(failure_message(daemon, doing@, failure)),
{
    match failure {
        DbusFailure::Proxy(cause) => {
            let mut text = "Failed to create ".to_owned();
            match daemon {
                Daemon::Networkd => text.append("networkd"),
                Daemon::Resolved => text.append("resolved"),
                Daemon::Hostnamed => text.append("hostnamed"),
            }
            text.append(" proxy: ");
            text.append(cause.as_str());
            Error::Dbus(text)
        },
        DbusFailure::Call(cause) => {
            let mut text = doing.to_owned();
            text.append(": ");
            text.append(cause.as_str());
            Error::Dbus(text)
        },
    }
}

/// What is made of the reply to a call that gives nothing back: success
/// as it is, a failure as the daemon call error with its message.
pub open spec fn unit_outcome_of(daemon: Daemon, doing: Seq<char>, reply: Result<(), DbusFailure>) -> Result<
    (),
    ErrorModel,
> {
    match reply {
        Ok(_) => Ok(()),
        Err(failure) => Err(ErrorModel::Dbus(failure_message(daemon, doing, failure))),
    }
}

/// What is made of the reply to a call that gives a text back: the text
/// as it is, a failure as the daemon call error with its message.
pub open spec fn text_outcome_of(
    daemon: Daemon,
    doing: Seq<char>,
    reply: Result<String, DbusFailure>,
) -> Result<Seq<char>, ErrorModel> {
    match reply {
        Ok(text) => Ok(text@),
        Err(failure) => Err(ErrorModel::Dbus(failure_message(daemon, doing, failure))),
    }
}

/// The outcome of a call that gives nothing back: success as it is, a
/// failure as the error with its message.
pub fn unit_outcome(daemon: Daemon, doing: &str, reply: Result<(), DbusFailure>) -> (r: Result<
    (),
    Error,
>)
    ensures
        unit_result(r) == unit_outcome_of(daemon, doing@, reply),
{
    match reply {
        Ok(_) => Ok(()),
        Err(failure) => Err(wrap_failure(daemon, doing, failure)),
    }
}

/// The outcome of a call that gives a text back: the text as it is, a
/// failure as the error with its message.
pub fn text_outcome(daemon: Daemon, doing: &str, reply: Result<String, DbusFailure>) -> (r: Result<
    String,
    Error,
>)
    ensures
        text_result(r) == text_outcome_of(daemon, doing@, reply),
{
    match reply {
        Ok(text) => Ok(text),
        Err(failure) => Err(wrap_failure(daemon, doing, failure)),
    }
}

/// `lead`, the index in decimal, and `trail`.
pub open spec fn with_index(lead: Seq<char>, index: u32, trail: Seq<char>) -> Seq<char> {
    lead + number_text(index as nat, 10) + trail
}

/// The text `lead`, the index in decimal, and `trail`.
pub fn text_with_index(lead: &str, index: u32, trail: &str) -> (text: String)
    ensures
        text@ == with_index(lead@, index, trail@),
{
    let mut text = lead.to_owned();
    push_number(&mut text, index as u64, 10);
    text.append(trail);
    text
}

/// The connection to the system bus: what carries a call to its daemon.
/// A transport sets up its proxy anew for each call.
pub trait DbusTransport {
    /// Makes a call that gives nothing back.
    fn invoke(&self, call: &DbusCall) -> Result<(), DbusFailure>;

    /// Makes a call, or reads a property, that gives a text back.
    fn fetch(&self, call: &DbusCall) -> Result<String, DbusFailure>;
}

/// True when `outcome` is what making the call over the bus can give: the
/// bus was handed exactly this call, and the outcome is success if the
/// call succeeded, and the daemon call error with the message for what
/// was being done if not.
pub open spec fn invoked<T: DbusTransport>(
    bus: T,
    call: DbusCallModel,
    doing: Seq<char>,
    outcome: Result<(), ErrorModel>,
) -> bool {
    exists|sent: DbusCall, reply: Result<(), DbusFailure>|
        sent@ == call && #[trigger] call_ensures(T::invoke, (&bus, &sent), reply) && outcome
            == unit_outcome_of(call.daemon(), doing, reply)
}

/// True when `outcome` is what making the call, or reading the property,
/// over the bus can give: the bus was handed exactly this call, and the
/// outcome is the text that came back, or the daemon call error with the
/// message for what was being done.
pub open spec fn fetched<T: DbusTransport>(
    bus: T,
    call: DbusCallModel,
    doing: Seq<char>,
    outcome: Result<Seq<char>, ErrorModel>,
) -> bool {
    exists|sent: DbusCall, reply: Result<String, DbusFailure>|
        sent@ == call && #[trigger] call_ensures(T::fetch, (&bus, &sent), reply) && outcome
            == text_outcome_of(call.daemon(), doing, reply)
}

/// Every domain of a domains call is for search and for routing, whatever
/// the names and their order, and the names are kept as they are given.
pub proof fn lemma_domains_never_routing_only(domains: Seq<Seq<char>>)
    ensures
        domain_entries_of(domains).len() == domains.len(),
        forall|i: int|
            0 <= i < domains.len() ==> !(#[trigger] domain_entries_of(domains)[i]).routing_only
                && domain_entries_of(domains)[i].name == domains[i],
{
}

/// Every server entry has the family and the length of its address: 2
/// and four octets, or 10 and sixteen.
pub proof fn lemma_dns_entry_shape(addr: IpAddrModel)
    requires
        addr.well_formed(),
    ensures
        addr is V4 ==> dns_entry_of(addr).family == 2 && dns_entry_of(addr).octets.len() == 4,
        addr is V6 ==> dns_entry_of(addr).family == 10 && dns_entry_of(addr).octets.len() == 16,
{
}

} // verus!
